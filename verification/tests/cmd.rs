use elmish::Cmd;
use elmish::EffectTree;
use elmish::Task;

#[test]
fn test_simple_cmd_mapping_syntax() {
    let cmd1: Cmd<i32> = Cmd::from(|| 10);
    let _cmd2: Cmd<f32> = cmd1.map(|e| e as f32);
}

#[test]
fn test_empty_unpacks_to_nothing() {
    let tree: EffectTree<u32> = EffectTree::Empty;
    assert!(tree.unpack().is_empty());
    let cmd: Cmd<i32> = EffectTree::Empty;
    assert_eq!(cmd.unpack().len(), 0);
}

#[test]
fn test_batch_unpacks_depth_first() {
    let tree: EffectTree<u32> = EffectTree::Batch(vec![
        EffectTree::Single(1),
        EffectTree::Single(2),
        EffectTree::Batch(vec![EffectTree::Single(3), EffectTree::Single(4)]),
    ]);
    assert_eq!(tree.unpack(), vec![1, 2, 3, 4]);

    let deep: EffectTree<u32> = EffectTree::Batch(vec![
        EffectTree::Single(1),
        EffectTree::Batch(vec![
            EffectTree::Empty,
            EffectTree::Batch(vec![EffectTree::Batch(vec![EffectTree::Single(2)])]),
            EffectTree::Single(3),
        ]),
        EffectTree::Empty,
        EffectTree::Single(4),
    ]);
    assert_eq!(deep.unpack(), vec![1, 2, 3, 4]);
}

#[test]
fn test_batch_of_tasks_runs_in_order() {
    let cmd: Cmd<i32> = EffectTree::Batch(vec![
        Cmd::from(|| 1),
        Cmd::from(|| 2),
        EffectTree::Batch(vec![Cmd::from(|| 3), Cmd::from(|| 4)]),
    ]);
    let results: Vec<i32> = cmd.unpack().into_iter().map(|task| task.run()).collect();
    assert_eq!(results, vec![1, 2, 3, 4]);
}

#[test]
fn test_map_transforms_every_leaf_result() {
    let cmd: Cmd<i32> = EffectTree::Batch(vec![
        Cmd::from(|| 1),
        EffectTree::Batch(vec![Cmd::from(|| 2), Cmd::from(|| 3)]),
    ]);
    let mapped: Cmd<i64> = cmd.map(|x| (x as i64) * 10);
    let tasks = mapped.unpack();
    assert_eq!(tasks.len(), 3);
    let results: Vec<i64> = tasks.into_iter().map(|task| task.run()).collect();
    assert_eq!(results, vec![10, 20, 30]);
}

#[test]
fn test_map_leaves_keeps_shape_and_order() {
    let tree: EffectTree<u32> = EffectTree::Batch(vec![
        EffectTree::Single(1),
        EffectTree::Batch(vec![EffectTree::Single(2), EffectTree::Empty]),
        EffectTree::Single(3),
    ]);
    let mapped = tree.map_leaves(|x: u32| x + 100);
    match &mapped {
        EffectTree::Batch(children) => {
            assert_eq!(children.len(), 3);
            assert!(matches!(children[0], EffectTree::Single(101)));
            assert!(matches!(children[2], EffectTree::Single(103)));
        }
        _ => panic!("shape was not preserved"),
    }
    assert_eq!(mapped.unpack(), vec![101, 102, 103]);
}

use rsactor::deadlock::{
    find_path, format_cycle_path, has_path, register_ask_edge, remove_edge, AskEdge,
};
use rsactor::Identity;
use std::collections::HashMap;

fn id(n: u64) -> Identity {
    // Map ids to stable static type-name literals.
    let name: &'static str = match n {
        1 => "A",
        2 => "B",
        3 => "C",
        4 => "D",
        _ => "X",
    };
    Identity::new(n, name)
}

/// Builds a graph from `(caller, [callees])` pairs.
fn graph_of(edges: &[(u64, &[u64])]) -> HashMap<u64, Vec<Identity>> {
    let mut g = HashMap::new();
    for (caller, callees) in edges {
        g.insert(*caller, callees.iter().map(|c| id(*c)).collect());
    }
    g
}

#[test]
fn has_path_linear_chain() {
    let g = graph_of(&[(1, &[2]), (2, &[3])]);
    assert!(has_path(&g, 1, 3));
    assert!(has_path(&g, 1, 2));
    assert!(!has_path(&g, 3, 1));
}

#[test]
fn has_path_follows_every_branch() {
    // Concurrent asks from actor 1 to both 2 and 3; 3 then waits on 4.
    let g = graph_of(&[(1, &[2, 3]), (3, &[4])]);
    assert!(has_path(&g, 1, 4), "must reach 4 through the second branch");
    assert!(has_path(&g, 1, 2));
    assert!(!has_path(&g, 2, 4), "no edge out of 2");
}

#[test]
fn has_path_terminates_on_preexisting_cycle() {
    // 1 <-> 2 cycle must not loop forever when searching for an absent node.
    let g = graph_of(&[(1, &[2]), (2, &[1])]);
    assert!(!has_path(&g, 1, 99));
    assert!(has_path(&g, 1, 2));
}

#[test]
fn find_path_reconstructs_identities() {
    // Existing path 2 -> 3 -> 1 (the back-edge that closes a 1->2 ask cycle).
    let g = graph_of(&[(2, &[3]), (3, &[1])]);
    let path = find_path(&g, id(2), 1).expect("path 2->3->1 exists");
    let ids: Vec<u64> = path.iter().map(|i| i.id).collect();
    assert_eq!(ids, vec![2, 3, 1]);
}

#[test]
fn format_cycle_path_renders_full_cycle() {
    // Adding edge A(1) -> B(2) closes the cycle because 2 -> 1 already exists.
    let g = graph_of(&[(2, &[1])]);
    let rendered = format_cycle_path(&g, id(1), id(2));
    assert_eq!(rendered, "A(#1) -> B(#2) -> A(#1)");
}

#[test]
fn format_cycle_path_self_ask() {
    let g = HashMap::new();
    assert_eq!(format_cycle_path(&g, id(1), id(1)), "A(#1) -> A(#1)");
}

#[test]
fn remove_edge_drops_only_one_distinct_edge() {
    // Edges 1->2 and 1->3 coexist; dropping 1->2 must leave 1->3 intact.
    let mut g = graph_of(&[(1, &[2, 3])]);
    remove_edge(&mut g, 1, 2);
    let remaining: Vec<u64> = g.get(&1).unwrap().iter().map(|i| i.id).collect();
    assert_eq!(remaining, vec![3]);
}

#[test]
fn remove_edge_is_multiset_for_duplicate_targets() {
    // Two concurrent asks to the same callee push two entries; one removal
    // leaves exactly one, not zero.
    let mut g = graph_of(&[(1, &[2, 2])]);
    remove_edge(&mut g, 1, 2);
    let remaining: Vec<u64> = g.get(&1).unwrap().iter().map(|i| i.id).collect();
    assert_eq!(remaining, vec![2]);
}

#[test]
fn remove_edge_clears_empty_key() {
    let mut g = graph_of(&[(1, &[2])]);
    remove_edge(&mut g, 1, 2);
    assert!(!g.contains_key(&1), "key removed once its last edge is gone");
}

#[test]
fn remove_edge_missing_is_noop() {
    let mut g = graph_of(&[(1, &[2])]);
    remove_edge(&mut g, 1, 99); // no such callee
    remove_edge(&mut g, 42, 2); // no such caller
    assert_eq!(g.get(&1).unwrap().len(), 1);
}

#[test]
fn has_path_reaches_itself() {
    let g = graph_of(&[]);
    assert!(has_path(&g, 7, 7));
    assert!(!has_path(&g, 7, 8));
}

#[test]
fn remove_edge_swaps_last_into_place() {
    let mut g = graph_of(&[(1, &[2, 3, 4])]);
    remove_edge(&mut g, 1, 2);
    let remaining: Vec<u64> = g.get(&1).unwrap().iter().map(|i| i.id).collect();
    assert_eq!(remaining, vec![4, 3]);
}

#[test]
fn find_path_absent_target_is_none() {
    let g = graph_of(&[(1, &[2]), (2, &[1])]);
    assert!(find_path(&g, id(1), 3).is_none());
    let own = find_path(&g, id(1), 1).expect("a node reaches itself");
    assert_eq!(own.len(), 1);
    assert_eq!(own[0].id, 1);
}

#[test]
fn format_cycle_path_three_hops() {
    let g = graph_of(&[(2, &[3]), (3, &[1])]);
    assert_eq!(
        format_cycle_path(&g, id(1), id(2)),
        "A(#1) -> B(#2) -> C(#3) -> A(#1)"
    );
}

#[test]
fn format_cycle_path_without_back_path() {
    let g = graph_of(&[]);
    assert_eq!(format_cycle_path(&g, id(1), id(2)), "A(#1) -> B(#2)");
}

#[test]
fn register_refuses_a_closing_edge() {
    let mut g = graph_of(&[(2, &[1])]);
    let err = match register_ask_edge(&mut g, id(1), id(2), "ask") {
        Err(m) => m,
        Ok(_) => panic!("edge 1 -> 2 closes a cycle"),
    };
    assert_eq!(
        err,
        "Deadlock detected: ask cycle A(#1) -> B(#2) -> A(#1)\nThis is a design error. Use `tell` to break the cycle, or restructure actor dependencies."
    );
    assert!(!g.contains_key(&1), "a refused edge is not inserted");
}

#[test]
fn register_refuses_self_ask() {
    let mut g = graph_of(&[]);
    let err = register_ask_edge(&mut g, id(3), id(3), "ask_priority").err().unwrap();
    assert!(err.starts_with("Deadlock detected: ask_priority cycle C(#3) -> C(#3)\n"));
    assert!(g.is_empty());
}

#[test]
fn register_then_remove_once() {
    let mut g = graph_of(&[]);
    let mut edge: AskEdge = register_ask_edge(&mut g, id(1), id(2), "ask").ok().unwrap();
    let mut second = register_ask_edge(&mut g, id(1), id(2), "ask").ok().unwrap();
    assert_eq!(g.get(&1).unwrap().len(), 2);
    edge.remove_once(&mut g);
    edge.remove_once(&mut g);
    assert_eq!(g.get(&1).unwrap().len(), 1, "the second removal of one edge is a no-op");
    second.remove_once(&mut g);
    assert!(g.is_empty());
}

#[test]
fn register_allows_chains_and_refuses_their_closure() {
    let mut g = graph_of(&[]);
    assert!(register_ask_edge(&mut g, id(1), id(2), "ask").is_ok());
    assert!(register_ask_edge(&mut g, id(2), id(3), "ask").is_ok());
    assert!(register_ask_edge(&mut g, id(3), id(1), "ask").is_err());
    assert!(register_ask_edge(&mut g, id(1), id(3), "ask").is_ok());
}

#[test]
fn deadlock_panics_are_recognised_by_their_prefix() {
    assert!(rsactor::deadlock::is_deadlock_panic("Deadlock detected: ask cycle A(#1) -> A(#1)"));
    assert!(rsactor::deadlock::is_deadlock_panic("Deadlock detected"));
    assert!(!rsactor::deadlock::is_deadlock_panic("Deadlock detecte"));
    assert!(!rsactor::deadlock::is_deadlock_panic("deadlock detected: lower case"));
    assert!(!rsactor::deadlock::is_deadlock_panic("handler panicked"));
    assert!(!rsactor::deadlock::is_deadlock_panic(""));
}

#[test]
fn self_send_on_full_mailbox_is_a_deadlock_only_inside_the_target() {
    let target = Identity::new(7, "Worker");
    let other = Identity::new(8, "Worker");
    assert!(rsactor::deadlock::self_send_deadlock(None, target, "tell").is_none());
    assert!(rsactor::deadlock::self_send_deadlock(Some(other), target, "tell").is_none());
    let message = rsactor::deadlock::self_send_deadlock(Some(target), target, "blocking_tell")
        .expect("a handler waiting on its own full mailbox deadlocks");
    assert_eq!(
        message,
        "Deadlock detected: blocking_tell to self on a full mailbox from inside actor Worker(#7)'s \
         own handler or lifecycle hook.\nThe mailbox's only consumer is this actor's runtime loop, \
         which is parked awaiting the current handler, so admission can never succeed and kill() \
         cannot interrupt the wait. Use tell_with_timeout, a larger mailbox capacity, or send \
         from a spawned task."
    );
    assert!(rsactor::deadlock::is_deadlock_panic(&message));
}

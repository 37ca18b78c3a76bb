use callgraph::error::CallGraphError;
use callgraph::guard::{RecursionGuard, ThreadState};
use callgraph::hook::{begin_hook, HookStart};
use callgraph::log::{write_log_entry, SinkState};
use callgraph::runtime::CallGraph;
use callgraph::symbols::{lookup_address, name_from_frames, SymbolRecord};

fn frame(file: Option<&str>, name: Option<&str>) -> SymbolRecord {
    SymbolRecord { filename: file.map(String::from), name: name.map(String::from) }
}

fn s(x: &str) -> String {
    String::from(x)
}

#[test]
fn logs_new_edge_once() {
    let mut g = CallGraph::new();
    let first = g.record_call(4242, Some(s("callee1")), Some(s("caller1")), SinkState::Open);
    match first {
        Ok(Some(line)) => assert_eq!(line, "4242|callee1|caller1\n"),
        other => panic!("unexpected {:?}", other),
    }
    let second = g.record_call(4242, Some(s("callee1")), Some(s("caller1")), SinkState::Open);
    assert!(matches!(second, Ok(None)));
    assert_eq!(g.edge_count(), 1);
    assert!(g.is_claimed(&s("callee1"), &s("caller1")));
    assert!(!g.is_claimed(&s("caller1"), &s("callee1")));
}

#[test]
fn unresolved_end_records_nothing() {
    let mut g = CallGraph::new();
    assert!(matches!(g.record_call(7, None, Some(s("caller1")), SinkState::Open), Ok(None)));
    assert!(matches!(g.record_call(7, Some(s("callee1")), None, SinkState::Open), Ok(None)));
    assert!(matches!(g.record_call(7, None, None, SinkState::Open), Ok(None)));
    assert_eq!(g.edge_count(), 0);
}

#[test]
fn edge_claimed_by_one_of_many() {
    let mut g = CallGraph::new();
    let mut wins = 0;
    for _ in 0..16 {
        if g.try_claim(s("f"), s("main")) {
            wins += 1;
        }
    }
    assert_eq!(wins, 1);
    assert_eq!(g.edge_count(), 1);
}

#[test]
fn distinct_edges_each_logged() {
    let mut g = CallGraph::new();
    assert!(matches!(g.record_call(1, Some(s("a")), Some(s("b")), SinkState::Open), Ok(Some(_))));
    assert!(matches!(g.record_call(1, Some(s("b")), Some(s("a")), SinkState::Open), Ok(Some(_))));
    assert!(matches!(g.record_call(2, Some(s("a")), Some(s("b")), SinkState::Open), Ok(None)));
    assert_eq!(g.edge_count(), 2);
}

#[test]
fn failed_write_forfeits_edge() {
    let mut g = CallGraph::new();
    assert!(matches!(
        g.record_call(3, Some(s("a")), Some(s("b")), SinkState::Missing),
        Err(CallGraphError::NoLogFile)
    ));
    assert!(matches!(g.record_call(3, Some(s("a")), Some(s("b")), SinkState::Open), Ok(None)));
    assert!(matches!(
        g.record_call(3, Some(s("c")), Some(s("b")), SinkState::Poisoned),
        Err(CallGraphError::LockError)
    ));
}

#[test]
fn second_resolution_comes_from_cache() {
    let mut g = CallGraph::new();
    assert!(g.cached_symbol(0x4010).is_none());
    let frames = vec![frame(Some("/src/app.c"), Some("parse"))];
    let first = g.resolve_from_frames(0x4010, &frames);
    assert_eq!(first.as_deref(), Some("parse"));
    let cached = g.cached_symbol(0x4010);
    assert_eq!(cached, Some(Some(s("parse"))));
    assert_eq!(g.symbol_count(), 1);
}

#[test]
fn failed_resolution_is_cached() {
    let mut g = CallGraph::new();
    let none = g.resolve_from_frames(0x10, &vec![]);
    assert!(none.is_none());
    assert_eq!(g.cached_symbol(0x10), Some(None));
}

#[test]
fn system_frames_are_filtered() {
    let frames = vec![frame(Some("/usr/include/c++/vector"), Some("std::vector::push_back"))];
    assert!(name_from_frames(&frames).is_none());
    let frames = vec![frame(Some("/usr"), Some("x"))];
    assert!(name_from_frames(&frames).is_none());
    let frames = vec![frame(Some("/usrlocal/lib.c"), Some("kept"))];
    assert_eq!(name_from_frames(&frames).as_deref(), Some("kept"));
    let frames = vec![frame(None, Some("no_file"))];
    assert_eq!(name_from_frames(&frames).as_deref(), Some("no_file"));
}

#[test]
fn last_kept_frame_names_address() {
    let frames = vec![
        frame(Some("/src/a.c"), Some("outer")),
        frame(Some("/src/a.c"), Some("inlined")),
        frame(Some("/usr/lib/libc.c"), Some("memcpy")),
        frame(Some("/src/a.c"), None),
    ];
    assert_eq!(name_from_frames(&frames).as_deref(), Some("inlined"));
}

#[test]
fn system_name_never_logged() {
    let mut g = CallGraph::new();
    let callee = g.resolve_from_frames(1, &vec![frame(Some("/usr/lib/x.c"), Some("sys"))]);
    let caller = g.resolve_from_frames(2, &vec![frame(Some("/home/p/m.c"), Some("main"))]);
    assert!(matches!(g.record_call(9, callee, caller, SinkState::Open), Ok(None)));
    assert_eq!(g.edge_count(), 0);
}

#[test]
fn lookup_address_adds_one() {
    assert_eq!(lookup_address(0x401000), 0x401001);
    assert_eq!(lookup_address(0), 1);
    assert_eq!(lookup_address(usize::MAX), 0);
}

#[test]
fn log_entry_formats_and_fails() {
    match write_log_entry(SinkState::Open, -5, "cal", "er") {
        Ok(line) => assert_eq!(line, "-5|cal|er\n"),
        Err(e) => panic!("{:?}", e),
    }
    match write_log_entry(SinkState::Open, 0, "", "") {
        Ok(line) => assert_eq!(line, "0||\n"),
        Err(e) => panic!("{:?}", e),
    }
    assert!(matches!(write_log_entry(SinkState::Poisoned, 1, "a", "b"), Err(CallGraphError::LockError)));
    assert!(matches!(write_log_entry(SinkState::Missing, 1, "a", "b"), Err(CallGraphError::NoLogFile)));
}

#[test]
fn error_messages() {
    assert_eq!(CallGraphError::IoError(s("disk full")).message(), "I/O error: disk full");
    assert_eq!(CallGraphError::LockError.message(), "Failed to acquire lock");
    assert_eq!(CallGraphError::NoLogFile.message(), "Log file not initialized");
}

#[test]
fn reentry_is_absorbed() {
    let mut st = ThreadState::new();
    let outer = begin_hook(true, &mut st);
    assert!(matches!(outer, HookStart::Run(_)));
    assert!(st.is_held());
    assert!(matches!(begin_hook(true, &mut st), HookStart::Reentered));
    assert!(st.is_held());
    if let HookStart::Run(g) = outer {
        g.release(&mut st);
    }
    assert!(!st.is_held());
    assert!(matches!(begin_hook(true, &mut st), HookStart::Run(_)));
}

#[test]
fn disabled_hook_does_nothing() {
    let mut st = ThreadState::new();
    for _ in 0..3 {
        assert!(matches!(begin_hook(false, &mut st), HookStart::Disabled));
    }
    assert!(!st.is_held());
    assert_eq!(st.cached_thread_id(), None);
    let g = CallGraph::new();
    assert_eq!(g.symbol_count(), 0);
    assert_eq!(g.edge_count(), 0);
}

#[test]
fn guard_acquire_and_release() {
    let mut st = ThreadState::new();
    let g = RecursionGuard::new(&mut st);
    assert!(g.is_some());
    assert!(RecursionGuard::new(&mut st).is_none());
    g.unwrap().release(&mut st);
    assert!(RecursionGuard::new(&mut st).is_some());
}

#[test]
fn thread_id_cached_after_first_lookup() {
    let mut st = ThreadState::new();
    assert_eq!(st.remember_thread_id(311), 311);
    assert_eq!(st.remember_thread_id(999), 311);
    assert_eq!(st.cached_thread_id(), Some(311));
}

#[test]
fn many_claimers_log_edge_once() {
    let mut g = CallGraph::new();
    let mut lines = Vec::new();
    for t in 0..8i64 {
        if let Ok(Some(line)) = g.record_call(100 + t, Some(s("callee1")), Some(s("caller1")), SinkState::Open) {
            lines.push(line);
        }
    }
    assert_eq!(lines, vec![s("100|callee1|caller1\n")]);
    assert_eq!(g.edge_count(), 1);
}

#[test]
fn usr_prefix_is_component_wise() {
    let frames = vec![frame(Some("/usr/lib/gcc/x.h"), Some("sys")), frame(Some("/home/p/m.c"), Some("mine"))];
    assert_eq!(name_from_frames(&frames).as_deref(), Some("mine"));
    let frames = vec![frame(Some("/home/p/m.c"), Some("mine")), frame(Some("/usr/include/x.h"), Some("sys"))];
    assert_eq!(name_from_frames(&frames).as_deref(), Some("mine"));
    let frames = vec![frame(Some("usr/local.c"), Some("relative"))];
    assert_eq!(name_from_frames(&frames).as_deref(), Some("relative"));
}

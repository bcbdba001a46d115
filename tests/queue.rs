use resource_loading::ResourceHandles;

/// A backend in which the load of each handle completes at a given tick.
struct Backend {
    ready_at: Vec<(u64, u32)>,
    tick: u32,
}

impl Backend {
    fn is_ready(&self, handle: u64) -> bool {
        self.ready_at
            .iter()
            .any(|&(h, t)| h == handle && t <= self.tick)
    }
}

/// Runs one tick: asks the backend about every waiting handle, then
/// installs what the pass hands back.
fn poll(
    q: &mut ResourceHandles<u64, &'static str>,
    backend: &mut Backend,
    installed: &mut Vec<&'static str>,
) {
    backend.tick += 1;
    let ready: Vec<bool> = (0..q.waiting_len())
        .map(|i| backend.is_ready(*q.waiting_handle(i)))
        .collect();
    for name in q.poll_with(&ready) {
        installed.push(name);
    }
}

fn waiting(q: &ResourceHandles<u64, &'static str>) -> Vec<u64> {
    (0..q.waiting_len()).map(|i| *q.waiting_handle(i)).collect()
}

fn finished(q: &ResourceHandles<u64, &'static str>) -> Vec<u64> {
    (0..q.finished_len()).map(|i| *q.finished_handle(i)).collect()
}

#[test]
fn fonts_then_music_become_ready() {
    let mut q = ResourceHandles::new();
    let mut backend = Backend { ready_at: vec![(1, 1), (2, 3)], tick: 0 };
    let mut installed = Vec::new();
    q.register(1, "Fonts");
    q.register(2, "Music");

    poll(&mut q, &mut backend, &mut installed);
    assert!(!q.is_all_done());
    assert_eq!(installed, vec!["Fonts"]);
    poll(&mut q, &mut backend, &mut installed);
    assert!(!q.is_all_done());
    poll(&mut q, &mut backend, &mut installed);
    assert!(q.is_all_done());
    assert_eq!(installed, vec!["Fonts", "Music"]);
    for _ in 0..3 {
        poll(&mut q, &mut backend, &mut installed);
        assert!(q.is_all_done());
    }
    assert_eq!(installed, vec!["Fonts", "Music"]);
    assert_eq!(finished(&q), vec![1, 2]);
}

#[test]
fn five_registered_two_ready_leaves_three_waiting() {
    let mut q: ResourceHandles<u64, &'static str> = ResourceHandles::new();
    for h in 1..=5 {
        q.register(h, "value");
    }
    let done = q.poll_with(&vec![false, true, false, true, false]);
    assert_eq!(done.len(), 2);
    assert_eq!(q.waiting_len(), 3);
    assert_eq!(q.finished_len(), 2);
    assert_eq!(waiting(&q), vec![1, 3, 5]);
    assert_eq!(finished(&q), vec![2, 4]);
}

#[test]
fn ready_entries_come_back_in_order() {
    let mut q = ResourceHandles::new();
    q.register(10, "a");
    q.register(20, "b");
    q.register(30, "c");
    q.register(40, "d");
    let done = q.poll_with(&vec![true, false, true, true]);
    assert_eq!(done, vec!["a", "c", "d"]);
    assert_eq!(finished(&q), vec![10, 30, 40]);
    assert_eq!(waiting(&q), vec![20]);
}

#[test]
fn finalizers_run_once_per_ready_entry() {
    let mut q = ResourceHandles::new();
    let mut backend = Backend { ready_at: vec![(1, 2), (2, 1), (3, 5), (4, 100)], tick: 0 };
    let mut installed = Vec::new();
    q.register(1, "one");
    q.register(2, "two");
    q.register(3, "three");
    q.register(4, "four");
    for _ in 0..8 {
        poll(&mut q, &mut backend, &mut installed);
    }
    assert_eq!(installed, vec!["two", "one", "three"]);
    assert_eq!(installed.len(), q.finished_len());
    assert_eq!(finished(&q), vec![2, 1, 3]);
    assert_eq!(waiting(&q), vec![4]);
    assert!(!q.is_all_done());
}

#[test]
fn entries_never_ready_keep_their_order() {
    let mut q = ResourceHandles::new();
    let mut backend = Backend { ready_at: vec![(2, 2)], tick: 0 };
    let mut installed = Vec::new();
    q.register(1, "A");
    q.register(2, "ready later");
    q.register(3, "B");
    for _ in 0..5 {
        poll(&mut q, &mut backend, &mut installed);
        let w = waiting(&q);
        let a = w.iter().position(|&h| h == 1).unwrap();
        let b = w.iter().position(|&h| h == 3).unwrap();
        assert!(a < b);
    }
    assert_eq!(waiting(&q), vec![1, 3]);
    assert_eq!(installed, vec!["ready later"]);
}

#[test]
fn no_handle_both_waiting_and_finished() {
    let mut q = ResourceHandles::new();
    let mut backend = Backend { ready_at: vec![(1, 3), (2, 1), (3, 2), (4, 2), (5, 9)], tick: 0 };
    let mut installed = Vec::new();
    for h in 1..=5 {
        q.register(h, "value");
    }
    for _ in 0..6 {
        poll(&mut q, &mut backend, &mut installed);
        let w = waiting(&q);
        let f = finished(&q);
        assert!(w.iter().all(|h| !f.contains(h)));
        let mut all: Vec<u64> = w.iter().chain(f.iter()).copied().collect();
        all.sort();
        assert_eq!(all, vec![1, 2, 3, 4, 5]);
    }
}

#[test]
fn all_ready_polls_finish_everything() {
    let mut q = ResourceHandles::new();
    let mut backend = Backend { ready_at: vec![(7, 4), (8, 2), (9, 1)], tick: 0 };
    let mut installed = Vec::new();
    q.register(7, "seven");
    q.register(8, "eight");
    q.register(9, "nine");
    let mut polls = 0;
    while !q.is_all_done() {
        poll(&mut q, &mut backend, &mut installed);
        polls += 1;
        assert!(polls <= 4);
    }
    assert_eq!(polls, 4);
    let mut f = finished(&q);
    f.sort();
    assert_eq!(f, vec![7, 8, 9]);
    assert_eq!(installed.len(), 3);
}

#[test]
fn empty_queue_is_done() {
    let mut q: ResourceHandles<u64, &'static str> = ResourceHandles::default();
    assert!(q.is_all_done());
    let done = q.poll_with(&Vec::new());
    assert!(done.is_empty());
    assert!(q.is_all_done());
    assert_eq!(q.finished_len(), 0);
}

#[test]
fn registering_after_done_reopens_the_queue() {
    let mut q = ResourceHandles::new();
    q.register(1, "first");
    q.poll_with(&vec![true]);
    assert!(q.is_all_done());
    q.register(2, "second");
    assert!(!q.is_all_done());
    assert_eq!(waiting(&q), vec![2]);
    assert_eq!(finished(&q), vec![1]);
}

#[test]
fn same_value_registered_twice_gives_two_entries() {
    let mut q = ResourceHandles::new();
    q.register(1, "Fonts");
    q.register(2, "Fonts");
    assert_eq!(q.waiting_len(), 2);
    let done = q.poll_with(&vec![true, true]);
    assert_eq!(done, vec!["Fonts", "Fonts"]);
    assert_eq!(finished(&q), vec![1, 2]);
}

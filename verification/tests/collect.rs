use nodui::collect::{Collect, Collector, NoCollect};

#[test]
fn collector_push_and_into_vec() {
    let mut c = Collector::new();
    c.push(1);
    c.push(2);
    assert_eq!(c.into_vec(), vec![1, 2]);
}

#[test]
fn collector_watch_returns_new_items() {
    let mut c = Collector::new();
    c.push('a');
    let (new, r) = c.watch(|c: &mut Collector<char>| {
        c.push('b');
        c.push('c');
        42
    });
    assert_eq!(new, &['b', 'c']);
    assert_eq!(r, 42);
    assert_eq!(c.into_vec(), vec!['a', 'b', 'c']);
}

#[test]
fn collector_watch_nothing_pushed() {
    let mut c: Collector<u8> = Collector::new();
    c.push(5);
    let (new, ()) = c.watch(|_c: &mut Collector<u8>| {});
    assert!(new.is_empty());
}

#[test]
fn vec_collects() {
    let mut v: Vec<u32> = Vec::new();
    Collect::reserve(&mut v, 10);
    Collect::collect(&mut v, 3);
    Collect::collect(&mut v, 4);
    assert_eq!(v, vec![3, 4]);
}

#[test]
fn no_collect_keeps_nothing() {
    let mut n: NoCollect<u32> = NoCollect::default();
    n.reserve(3);
    n.collect(1);
    let m = n;
    assert_eq!(m, NoCollect::default());
}

#[test]
fn collector_new_is_empty() {
    let c: Collector<u16> = Collector::new();
    assert!(c.into_vec().is_empty());
}

#[test]
fn collector_fresh_watch_reports_nothing() {
    let mut c: Collector<u16> = Collector::new();
    let (new, ()) = c.watch(|_c: &mut Collector<u16>| ());
    assert!(new.is_empty());
    assert!(c.into_vec().is_empty());
}

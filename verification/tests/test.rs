use voluntary_servitude::{Iter, VS};

fn count<T>(iter: &mut Iter<T>) -> usize {
    let mut n = 0;
    while iter.next().is_some() {
        n += 1;
    }
    n
}

#[test]
fn single_thread() {
    let list = VS::new();
    for i in 0..10000 {
        list.append(i);
    }

    let mut iter = list.iter();
    let mut i = 0;
    while let Some(el) = iter.next() {
        assert_eq!(i, *el);
        i += 1;
    }
}

#[test]
fn clear() {
    let list = VS::from_vec(vec![1]);
    assert_eq!(count(&mut list.iter()), 1);
    list.clear();
    assert_eq!(count(&mut list.iter()), 0);
    list.append(3);
    list.append(3);
    list.append(3);
    list.clear();
    assert_eq!(count(&mut list.iter()), 0);
}

fn elements_n(num: usize) {
    let list = VS::new();
    for i in 0..num {
        list.append(i);
    }
    assert_eq!(count(&mut list.iter()), num);
    assert_eq!(list.iter().next().as_deref(), Some(&0));
    let mut iter = list.iter();
    let mut i = 0;
    while let Some(el) = iter.next() {
        assert_eq!(*el, i);
        i += 1;
    }

    let iter = &mut list.iter();
    let iter_count = &mut list.iter();
    list.clear();
    assert_eq!(count(iter_count), num);
    assert_eq!(iter.next().as_deref(), Some(&0));
}

#[test]
fn elements_100k() {
    elements_n(100_000);
}

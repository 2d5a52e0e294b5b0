use voluntary_servitude::{Inner, Iter, VS};

fn collect<T: Clone>(iter: &mut Iter<T>) -> Vec<T> {
    let mut out = Vec::new();
    while let Some(element) = iter.next() {
        out.push((*element).clone());
    }
    out
}

fn count<T>(mut iter: Iter<T>) -> usize {
    let mut n = 0;
    while iter.next().is_some() {
        n += 1;
    }
    n
}

#[test]
fn iter_outlives() {
    let vs = VS::from_vec(vec![1, 2, 3, 4]);
    let iter = vs.iter();
    drop(vs);
    drop(iter);
}

#[test]
fn voluntary_servitude_len_append_clear() {
    let list = VS::from_vec(vec![1, 2, 3]);
    assert_eq!(list.len(), 3);
    list.append(4);
    assert_eq!(list.len(), 4);
    list.clear();
    assert!(list.is_empty());
    list.append(4);
    assert_eq!(list.len(), 1);
}

#[test]
fn extend_partial_eq() {
    let vs: VS<u8> = VS::from_vec(vec![1, 2, 3, 4, 5]);
    let iter = &mut vs.iter();
    vs.extend(collect(iter));
    assert_eq!(collect(&mut vs.iter()), vec![1u8, 2, 3, 4, 5, 1, 2, 3, 4, 5]);
}

#[test]
fn swap_empty() {
    let vs: VS<u8> = VS::from_vec(vec![1, 2, 3, 4, 5]);
    let old: VS<u8> = VS::from_vec(vec![5, 4, 3, 2, 1]);
    vs.swap(&old);
    assert_eq!(collect(&mut vs.empty()), vec![5, 4, 3, 2, 1]);
    assert_eq!(collect(&mut old.empty()), vec![1, 2, 3, 4, 5]);
    assert!(vs.is_empty());
}

#[test]
fn single_thread_example() {
    let (a, b, c) = (0usize, 1usize, 2usize);
    let list = VS::from_vec(vec![a, b, c]);
    assert_eq!(collect(&mut list.iter()), vec![a, b, c]);
    assert_eq!(list.len(), 3);

    let mut iter = list.iter();
    let mut index = 0;
    while let Some(element) = iter.next() {
        assert_eq!(index, *element);
        index += 1;
    }

    let iter = &mut list.iter();
    assert_eq!(iter.index(), 0);
    assert_eq!(iter.next().as_deref(), Some(&0));
    assert_eq!(iter.index(), 1);

    list.clear();
    assert_eq!(iter.len(), 3);
    assert_eq!(list.len(), 0);
    assert_eq!(list.iter().len(), 0);
    assert!(list.iter().next().is_none());
}

#[test]
fn append_after_making_an_iterator() {
    let list: VS<i32> = VS::new();
    let mut iter = list.iter();
    list.append(3);
    assert!(iter.is_empty());

    iter = list.iter();
    list.append(8);
    assert_eq!(collect(&mut iter), vec![3, 8]);
}

#[test]
fn iter_in_order() {
    let list = VS::from_vec(vec![3, 2]);
    assert_eq!(collect(&mut list.iter()), vec![3, 2]);
}

#[test]
fn len_follows_appends_and_clear() {
    let list = VS::from_vec(vec![3, 2]);
    assert_eq!(list.len(), 2);
    list.append(5);
    assert_eq!(list.len(), 3);
    list.clear();
    assert_eq!(list.len(), 0);
}

#[test]
fn is_empty_follows_appends() {
    let list = VS::new();
    assert!(list.is_empty());
    list.append(());
    assert!(!list.is_empty());
}

#[test]
fn clear_keeps_existing_iterators() {
    let list = VS::from_vec(vec![3, 2]);
    let iter = list.iter();
    list.clear();
    assert_eq!(iter.len(), 2);
    assert_eq!(list.len(), 0);
    assert_eq!(list.iter().len(), 0);
}

#[test]
fn empty_returns_the_old_elements() {
    let list = VS::from_vec(vec![3, 2]);
    let iter = list.empty();
    assert_eq!(iter.len(), 2);
    assert_eq!(list.len(), 0);
    assert_eq!(list.iter().len(), 0);
}

#[test]
fn swap_exchanges_the_lists() {
    let list = VS::from_vec(vec![3, 2]);
    let list2 = VS::from_vec(vec![5, 4]);
    list.swap(&list2);
    assert_eq!(collect(&mut list.iter()), vec![5, 4]);
    assert_eq!(collect(&mut list2.iter()), vec![3, 2]);
}

#[test]
fn swap_with_itself_changes_nothing() {
    let list = VS::from_vec(vec![1, 2]);
    list.swap(&list);
    assert_eq!(collect(&mut list.iter()), vec![1, 2]);
}

#[test]
fn extend_keeps_order() {
    let list = VS::from_vec(vec![1, 2, 3]);
    list.extend(vec![4, 5, 6]);
    assert_eq!(collect(&mut list.iter()), vec![1, 2, 3, 4, 5, 6]);
    let sum: i32 = collect(&mut list.iter()).iter().sum();
    assert_eq!(sum, 21);
}

#[test]
fn repeated_element_list() {
    let vs = VS::new();
    for _ in 0..3 {
        vs.append(1);
    }
    assert_eq!(collect(&mut vs.iter()), vec![1, 1, 1]);
    let vs: VS<()> = VS::default();
    assert!(vs.is_empty());
}

#[test]
fn try_unwrap_of_a_list() {
    let list = VS::from_vec(vec![4, 5]);
    let inner = list.try_unwrap().expect("no iterator holds the chain");
    assert_eq!(inner.len(), 2);

    let list = VS::from_vec(vec![4, 5]);
    let iter = list.iter();
    assert!(list.try_unwrap().is_none());
    assert_eq!(count(iter), 2);
}

#[test]
fn inner_reads() {
    let inner = Inner::from_vec(vec![1, 2, 3]);
    assert_eq!(inner.len(), 3);
    assert!(!inner.is_empty());
    assert_eq!(inner.first_node().as_deref(), Some(&1));
    assert_eq!(inner.last_node().as_deref(), Some(&3));
    assert_eq!(inner.get(1).as_deref(), Some(&2));
    assert!(inner.get(3).is_none());
    inner.append(4);
    inner.append_chain(vec![std::sync::Arc::new(5), std::sync::Arc::new(6)]);
    let values: Vec<i32> = inner.into_inner().iter().map(|x| **x).collect();
    assert_eq!(values, vec![1, 2, 3, 4, 5, 6]);
    let empty: Inner<u8> = Inner::new();
    assert!(empty.is_empty());
    assert!(empty.first_node().is_none());
    assert!(empty.last_node().is_none());
}

#[test]
fn from_inner_owns_the_chain() {
    let list = VS::from_inner(Inner::from_vec(vec!['x', 'y']));
    assert_eq!(collect(&mut list.iter()), vec!['x', 'y']);
}

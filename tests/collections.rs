use std::collections::{BTreeMap, BTreeSet, BinaryHeap, HashMap, HashSet, LinkedList, VecDeque};

#[test]
fn test_vec() {
    let mut v1 = vec![];
    v1.push(1);
    v1.push(2);
    v1.push(3);
    assert_eq!(v1, [1, 2, 3]);
    assert_eq!(v1[1], 2);
    let v2 = vec![0; 10];
    assert_eq!(v2.len(), 10);
    let mut v3 = Vec::new();
    v3.push(4);
    v3.push(5);
    v3.push(6);
    assert_eq!(v3.get(4), None);
}

#[test]
fn test_double_ended_queue() {
    let mut buf = VecDeque::new();
    buf.push_front(1);
    buf.push_front(2);
    assert_eq!(buf.get(0), Some(&2));
    assert_eq!(buf.get(1), Some(&1));
    buf.push_back(3);
    buf.push_back(4);
    buf.push_back(5);
    assert_eq!(buf.get(2), Some(&3));
    assert_eq!(buf.get(3), Some(&4));
}

#[test]
fn test_linked_list() {
    let mut list1 = LinkedList::new();
    list1.push_back('a');
    let mut list2 = LinkedList::new();
    list2.push_back('b');
    list2.push_back('c');
    list1.append(&mut list2);
    println!("{:?}", list1);
    println!("{:?}", list2);
    assert!(list2.is_empty());
    assert_eq!(list1.pop_front(), Some('a'));
    list1.push_front('e');
    list2.push_front('f');
    assert_eq!(list1.pop_back(), Some('c'));
}

#[test]
fn test_kv() {
    let mut hmap = HashMap::new();
    hmap.insert(3, "c");
    hmap.insert(1, "a");
    hmap.insert(2, "b");
    hmap.insert(5, "e");
    hmap.insert(4, "d");
    println!("{:?}", hmap);

    let mut bmap = BTreeMap::new();
    bmap.insert(3, "c");
    bmap.insert(2, "b");
    bmap.insert(1, "a");
    bmap.insert(5, "e");
    bmap.insert(4, "d");
    println!("{:?}", bmap);
    let keys: Vec<i32> = bmap.keys().copied().collect();
    assert_eq!(keys, vec![1, 2, 3, 4, 5]);
}

#[test]
fn test_set() {
    let mut hbooks = HashSet::new();
    hbooks.insert("A song of Ice and Fire");
    hbooks.insert("The Emerald City");
    hbooks.insert("The Odyssey");
    if !hbooks.contains("The Emerald City") {
        println!(
            "We have {} bookes, but The Emerald City ain't one.",
            hbooks.len()
        );
    }
    println!("{:?}", hbooks);

    let mut bbooks = BTreeSet::new();
    bbooks.insert("A song of Ice and Fire");
    bbooks.insert("The Emerald City");
    bbooks.insert("The Odyssey");
    println!("{:?}", bbooks);
}

#[test]
fn test_binary_heap() {
    let mut heap = BinaryHeap::new();
    assert_eq!(heap.peek(), None);
    let arr = [93, 80, 48, 53, 72, 30, 18, 36, 15, 35, 45];
    for &i in arr.iter() {
        heap.push(i);
    }
    assert_eq!(heap.peek(), Some(&93));
    println!("{:?}", heap);

    let mut popped = Vec::new();
    while let Some(i) = heap.pop() {
        popped.push(i);
    }
    println!("{:?}", popped);
    assert_eq!(popped, vec![93, 80, 72, 53, 48, 45, 36, 35, 30, 18, 15]);
}

use recycle::VecExt;
use std::cell::Cell;
use std::rc::Rc;

/// A value that counts its drops in a shared counter.
struct Probe {
    value: u32,
    drops: Rc<Cell<usize>>,
}

impl Drop for Probe {
    fn drop(&mut self) {
        self.drops.set(self.drops.get() + 1);
    }
}

fn probes(values: &[u32], drops: &Rc<Cell<usize>>) -> Vec<Box<Probe>> {
    values
        .iter()
        .map(|&value| Box::new(Probe { value, drops: drops.clone() }))
        .collect()
}

#[test]
fn succeeds() {}

#[test]
fn map_same_layout_keeps_order_and_length() {
    let v: Vec<u32> = vec![1, 2, 3, 4];
    let r: Vec<u32> = v.map(|x| x * 2);
    assert_eq!(r, vec![2, 4, 6, 8]);
}

#[test]
fn map_same_layout_to_other_type() {
    let v: Vec<u32> = vec![7, 0, 3];
    let r: Vec<i32> = v.map(|x| -(x as i32));
    assert_eq!(r, vec![-7, 0, -3]);
}

#[test]
fn map_same_layout_keeps_capacity() {
    let mut v: Vec<u64> = Vec::with_capacity(16);
    v.push(5);
    v.push(9);
    let cap = v.capacity();
    let r: Vec<i64> = v.map(|x| x as i64 + 1);
    assert_eq!(r, vec![6, 10]);
    assert!(r.capacity() >= cap);
}

#[test]
fn map_other_layout_collects() {
    let v: Vec<u8> = vec![1, 2, 255];
    let r: Vec<u64> = v.map(|x| x as u64 * 1000);
    assert_eq!(r, vec![1000, 2000, 255000]);
}

#[test]
fn try_map_same_layout_succeeds() {
    let v: Vec<u32> = vec![1, 2, 3];
    let r: Result<Vec<u32>, u32> = v.try_map(|x| Ok(x + 10));
    assert_eq!(r, Ok(vec![11, 12, 13]));
}

#[test]
fn try_map_returns_first_error() {
    let v: Vec<u32> = vec![1, 5, 2, 7, 3];
    let calls = Cell::new(0usize);
    let r: Result<Vec<u32>, u32> = v.try_map(|x| {
        calls.set(calls.get() + 1);
        if x > 4 { Err(x) } else { Ok(x * 3) }
    });
    assert_eq!(r, Err(5));
    assert_eq!(calls.get(), 2);
}

#[test]
fn try_map_other_layout_returns_first_error() {
    let v: Vec<u16> = vec![4, 8, 9, 10];
    let calls = Cell::new(0usize);
    let r: Result<Vec<u64>, u16> = v.try_map(|x| {
        calls.set(calls.get() + 1);
        if x % 2 == 1 { Err(x) } else { Ok(x as u64) }
    });
    assert_eq!(r, Err(9));
    assert_eq!(calls.get(), 3);
}

#[test]
fn try_map_other_layout_succeeds() {
    let v: Vec<u16> = vec![4, 8];
    let r: Result<Vec<u64>, u16> = v.try_map(|x| Ok(x as u64 + 1));
    assert_eq!(r, Ok(vec![5, 9]));
}

#[test]
fn try_map_error_drops_each_value_once() {
    let in_drops = Rc::new(Cell::new(0usize));
    let out_drops = Rc::new(Cell::new(0usize));
    let input = probes(&[1, 2, 3, 4, 5], &in_drops);
    let mut consumed: Vec<Box<Probe>> = Vec::new();
    let r: Result<Vec<Box<Probe>>, u32> = input.try_map(|p| {
        let doubled = p.value * 2;
        let value = p.value;
        consumed.push(p);
        if doubled > 6 {
            Err(value)
        } else {
            Ok(Box::new(Probe { value: doubled, drops: out_drops.clone() }))
        }
    });
    assert!(matches!(r, Err(4)));
    assert_eq!(consumed.len(), 4);
    assert_eq!(in_drops.get(), 1);
    assert_eq!(out_drops.get(), 3);
    drop(consumed);
    assert_eq!(in_drops.get(), 5);
    assert_eq!(out_drops.get(), 3);
}

#[test]
fn try_map_error_on_first_element_drops_rest() {
    let in_drops = Rc::new(Cell::new(0usize));
    let input = probes(&[9, 1, 2], &in_drops);
    let r: Result<Vec<Box<Probe>>, u32> = input.try_map(|p| Err(p.value));
    assert!(matches!(r, Err(9)));
    assert_eq!(in_drops.get(), 3);
}

#[test]
fn try_map_success_drops_nothing_early() {
    let in_drops = Rc::new(Cell::new(0usize));
    let out_drops = Rc::new(Cell::new(0usize));
    let input = probes(&[1, 2, 3], &in_drops);
    let r: Result<Vec<Box<Probe>>, ()> = input.try_map(|p| {
        Ok(Box::new(Probe { value: p.value + 100, drops: out_drops.clone() }))
    });
    let out = r.ok().unwrap();
    assert_eq!(in_drops.get(), 3);
    assert_eq!(out_drops.get(), 0);
    let values: Vec<u32> = out.iter().map(|p| p.value).collect();
    assert_eq!(values, vec![101, 102, 103]);
    drop(out);
    assert_eq!(out_drops.get(), 3);
}

#[test]
fn recycle_same_layout_is_empty_and_keeps_capacity() {
    let drops = Rc::new(Cell::new(0usize));
    let input = probes(&[1, 2, 3, 4], &drops);
    let cap = input.capacity();
    let r: Vec<Box<u8>> = input.recycle();
    assert_eq!(r.len(), 0);
    assert!(r.capacity() >= cap);
    assert_eq!(drops.get(), 4);
}

#[test]
fn recycle_other_layout_is_empty_without_allocation() {
    let v: Vec<u8> = vec![1, 2, 3];
    let r: Vec<u64> = v.recycle();
    assert_eq!(r.len(), 0);
    assert_eq!(r.capacity(), 0);
}

#[test]
fn empty_input_never_calls_the_function() {
    let calls = Cell::new(0usize);
    let v: Vec<u32> = Vec::with_capacity(8);
    let r: Vec<u32> = v.map(|x| {
        calls.set(calls.get() + 1);
        x
    });
    assert_eq!(r.len(), 0);
    assert!(r.capacity() >= 8);
    let w: Vec<u32> = Vec::new();
    let t: Result<Vec<u64>, ()> = w.try_map(|x| {
        calls.set(calls.get() + 1);
        Ok(x as u64)
    });
    assert_eq!(t, Ok(Vec::new()));
    let e: Vec<u32> = Vec::new();
    let q: Vec<i32> = e.recycle();
    assert_eq!(q.len(), 0);
    assert_eq!(calls.get(), 0);
}

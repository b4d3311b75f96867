use brug::{Allocatormode, BrugStruct, DEFAULT_ALLOCATOR};
use std::collections::BinaryHeap;
use std::time::Instant;
use ::arrow::array::{ArrayRef, Int32Array};
use ::arrow::record_batch::RecordBatch;
use std::sync::Arc;

const DATASIZE: i64 = 100;
const REPEATS: i64 = 10;

struct Product {
    name: String,
    id: i32,
    stock: i8,
    description: String,
}

fn measurements(datasize: i64) {
    let mut heap = BinaryHeap::new();
    let wishlist = vec![
        Product { name: String::from("Prodcut1"), id: 1, stock: 50, description: String::from("Product1") },
        Product { name: String::from("Prodcut2"), id: 2, stock: 20, description: String::from("Product2") },
    ];
    let start = Instant::now();
    for n in 0..datasize {
        heap.push(n);
    }
    let duration = start.elapsed();
    println!("{:?}", duration);
    assert_eq!(heap.len() as i64, datasize);
    assert_eq!(wishlist.iter().map(|p| p.id + p.stock as i32).sum::<i32>(), 73);
    assert!(wishlist.iter().all(|p| !p.name.is_empty() && !p.description.is_empty()));
}

fn test_sequential(numbers: i64, datasize: i64) {
    for _n in 0..numbers {
        measurements(datasize);
    }
}

/// The workers of the multi-thread workload, one measurement each, run one
/// after the other.
fn test_multithread(numbers: i64, datasize: i64) {
    let workers: Vec<i64> = (0..numbers).map(|_i| datasize).collect();
    for worker in workers {
        measurements(worker);
    }
}

#[test]
fn sequential() {
    let mut brug = BrugStruct::new();
    let allocator = Allocatormode::_JEMALLOC_;
    brug.set_mode(allocator);
    assert_eq!(brug.current_mode(), allocator);
    println!(
        "Testing sequential in plocicy {:?} with {} integer push and {} repetations",
        allocator, DATASIZE, REPEATS
    );
    test_sequential(REPEATS, DATASIZE);
    brug.end_set();
    assert_eq!(brug.current_mode(), DEFAULT_ALLOCATOR);
}

#[test]
fn multi_thread() {
    let mut brug = BrugStruct::new();
    let allocator = Allocatormode::_JEMALLOC_;
    brug.set_mode(allocator);
    assert_eq!(brug.current_mode(), allocator);
    println!(
        "Testing multi-thread in plocicy {:?} with {} integer push and {} repetations",
        allocator, DATASIZE, REPEATS
    );
    test_multithread(REPEATS, DATASIZE);
    brug.end_set();
    assert_eq!(brug.current_mode(), DEFAULT_ALLOCATOR);
}

#[test]
fn combined() {
    println!("Testing sequential with {} integer push and {} repetations", DATASIZE, REPEATS);
    test_sequential(REPEATS, DATASIZE);
    println!("Testing multi-thread with {} integer push and {} repetations", DATASIZE, REPEATS);
    test_multithread(REPEATS, DATASIZE);
}

#[test]
fn arrow() {
    println!("Arrow test");
    let col_1: ArrayRef = Arc::new(Int32Array::from_iter([0; 100]));
    let col_2: ArrayRef = Arc::new(Int32Array::from_iter([0; 100]));
    let batch = RecordBatch::try_from_iter([("col1", col_1), ("col_2", col_2)]).unwrap();
    println!("{:?}", batch);
    assert_eq!(batch.num_rows(), 100);
    assert_eq!(batch.num_columns(), 2);
}

#[test]
fn glass_bench() {}

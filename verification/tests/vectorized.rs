//! Runtime behaviour of vectorized dispatch: the elementwise results,
//! the literal length-mismatch abort, and receiver and generics
//! pass-through at the call site.

use auto_vec::elementwise::vectorized_call1;
use auto_vec::elementwise::vectorized_call2_checked;
use auto_vec::elementwise::vectorized_call3_checked;

fn foo(a: usize, b: usize) -> usize {
    return a + b;
}

fn foo_vec(a: Vec<usize>, b: Vec<usize>) -> Vec<usize> {
    match vectorized_call2_checked("foo_vec", foo, a, b) {
        Ok(v) => v,
        Err(m) => panic!("{}", m),
    }
}

struct T;

impl T {
    fn foo(&self, a: usize, b: usize) -> usize {
        return a + b;
    }

    fn foo_vec(&self, a: Vec<usize>, b: Vec<usize>) -> Vec<usize> {
        match vectorized_call2_checked("foo_vec", |x, y| self.foo(x, y), a, b) {
            Ok(v) => v,
            Err(m) => panic!("{}", m),
        }
    }
}

fn yay<T: Into<i64>>(a: String, b: Vec<i64>, c: T) -> i64 {
    return a.parse::<i64>().unwrap() + b.iter().sum::<i64>() + c.into();
}

fn yay_vec<T: Into<i64>>(a: Vec<String>, b: Vec<Vec<i64>>, c: Vec<T>) -> Vec<i64> {
    match vectorized_call3_checked("yay_vec", yay, a, b, c) {
        Ok(v) => v,
        Err(m) => panic!("{}", m),
    }
}

#[test]
fn example() {
    let results = foo_vec(vec![1, 2, 3], vec![1, 2, 3]);
    assert_eq!(vec![2, 4, 6], results);
}

#[test]
#[should_panic(expected = "Input vectors of not the same length to vectorized function foo_vec")]
fn unequal_vector_inputs() {
    foo_vec(vec![1, 2, 3], vec![1, 2]);
}

#[test]
fn methods() {
    let t = T {};
    let results = t.foo_vec(vec![1, 2], vec![3, 4]);
    assert_eq!(vec![4, 6], results);
}

#[test]
fn generics() {
    let results = yay_vec(
        vec!["1".to_string(), "2".to_string()],
        vec![vec![1, 2, 3], vec![4, 5, 6]],
        vec![10, 100],
    );
    assert_eq!(results, vec![17, 117]);
}

#[test]
fn empty_inputs_give_empty_output() {
    let results = foo_vec(vec![], vec![]);
    assert_eq!(results, Vec::<usize>::new());
}

#[test]
fn order_is_preserved() {
    let pair = |a: i64, b: i64| a * 10 + b;
    let out = match vectorized_call2_checked("pair_vec", pair, vec![1, 2, 3], vec![4, 5, 6]) {
        Ok(v) => v,
        Err(m) => panic!("{}", m),
    };
    assert_eq!(out, vec![14, 25, 36]);
}

#[test]
fn single_parameter_dispatch() {
    let double = |a: i64| a * 2;
    let out = vectorized_call1(double, vec![3, 0, 7]);
    assert_eq!(out, vec![6, 0, 14]);
}

#[test]
fn mismatch_is_reported_not_computed() {
    let out = vectorized_call2_checked("foo_vec", foo, vec![1], vec![1, 2]);
    match out {
        Ok(_) => panic!("a length mismatch must not produce a result"),
        Err(m) => {
            assert_eq!(m, "Input vectors of not the same length to vectorized function foo_vec");
        },
    }
}

#[test]
fn mismatch_in_later_pair() {
    let out = vectorized_call3_checked("yay_vec", yay, vec!["1".to_string()], vec![vec![1]], vec![
        10,
        20,
    ]);
    match out {
        Ok(_) => panic!("a length mismatch must not produce a result"),
        Err(m) => {
            assert_eq!(m, "Input vectors of not the same length to vectorized function yay_vec");
        },
    }
}

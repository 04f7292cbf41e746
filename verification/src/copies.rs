//! Faithful copies of lists and optional values.
//!
//! A type is copied faithfully when the copy has the same mathematical value
//! as the value it was made of.

use vstd::prelude::*;

verus! {

/// Copies a list whose elements are copied faithfully.
pub fn clone_vec<T: Clone + DeepView>(v: &Vec<T>) -> (res: Vec<T>)
    requires
        forall|a: T, b: T| cloned::<T>(a, b) ==> a.deep_view() == b.deep_view(),
    ensures
        res.deep_view() == v.deep_view(),
{
    let res = v.clone();
    assert(res.deep_view() =~= v.deep_view());
    res
}

/// Copies an optional value that is copied faithfully.
pub fn clone_opt<T: Clone + DeepView>(v: &Option<T>) -> (res: Option<T>)
    requires
        forall|a: T, b: T| cloned::<T>(a, b) ==> a.deep_view() == b.deep_view(),
    ensures
        res.deep_view() == v.deep_view(),
{
    match v {
        Some(value) => {
            let copy = value.clone();
            assert(cloned::<T>(*value, copy));
            Some(copy)
        },
        None => None,
    }
}

/// Copies an optional list whose elements are copied faithfully.
pub fn clone_opt_vec<T: Clone + DeepView>(v: &Option<Vec<T>>) -> (res: Option<Vec<T>>)
    requires
        forall|a: T, b: T| cloned::<T>(a, b) ==> a.deep_view() == b.deep_view(),
    ensures
        res.deep_view() == v.deep_view(),
{
    match v {
        Some(list) => Some(clone_vec(list)),
        None => None,
    }
}

/// Copies an optional text.
pub fn clone_opt_string(s: &Option<String>) -> (res: Option<String>)
    ensures
        res.deep_view() == s.deep_view(),
{
    match s {
        Some(text) => Some(text.clone()),
        None => None,
    }
}

} // verus!

//! Views of collections whose items have views.

use vstd::prelude::*;

verus! {

/// The views of the items of `s`, in order.
pub open spec fn views<T: View>(s: Seq<T>) -> Seq<T::V> {
    s.map_values(|t: T| t@)
}

/// The view of an optional text.
pub open spec fn text_view(s: Option<String>) -> Option<Seq<char>> {
    match s {
        Some(t) => Some(t@),
        None => None,
    }
}

/// The views of the lists that `m` holds, under the same keys.
pub open spec fn list_views<K, T: View>(m: Map<K, Vec<T>>) -> Map<K, Seq<T::V>> {
    m.map_values(|v: Vec<T>| views(v@))
}

pub broadcast proof fn lemma_views_empty<T: View>()
    ensures
        #[trigger] views::<T>(Seq::<T>::empty()) == Seq::<T::V>::empty(),
{
    assert(views::<T>(Seq::<T>::empty()) =~= Seq::<T::V>::empty());
}

pub broadcast proof fn lemma_views_push<T: View>(s: Seq<T>, x: T)
    ensures
        #[trigger] views(s.push(x)) == views(s).push(x@),
{
    assert(views(s.push(x)) =~= views(s).push(x@));
}

pub broadcast proof fn lemma_views_len<T: View>(s: Seq<T>)
    ensures
        #[trigger] views(s).len() == s.len(),
{
}

pub broadcast proof fn lemma_views_index<T: View>(s: Seq<T>, i: int)
    requires
        0 <= i < s.len(),
    ensures
        #[trigger] views(s)[i] == s[i]@,
{
}

pub broadcast proof fn lemma_views_remove<T: View>(s: Seq<T>, i: int)
    requires
        0 <= i < s.len(),
    ensures
        #[trigger] views(s.remove(i)) == views(s).remove(i),
{
    assert(views(s.remove(i)) =~= views(s).remove(i));
}

pub broadcast proof fn lemma_list_views_insert<K, T: View>(m: Map<K, Vec<T>>, k: K, v: Vec<T>)
    ensures
        #[trigger] list_views(m.insert(k, v)) == list_views(m).insert(k, views(v@)),
{
    assert(list_views(m.insert(k, v)) =~= list_views(m).insert(k, views(v@)));
}

pub broadcast proof fn lemma_list_views_remove<K, T: View>(m: Map<K, Vec<T>>, k: K)
    ensures
        #[trigger] list_views(m.remove(k)) == list_views(m).remove(k),
{
    assert(list_views(m.remove(k)) =~= list_views(m).remove(k));
}

pub broadcast proof fn lemma_list_views_empty<K, T: View>()
    ensures
        #[trigger] list_views::<K, T>(Map::<K, Vec<T>>::empty()) == Map::<K, Seq<T::V>>::empty(),
{
    assert(list_views::<K, T>(Map::<K, Vec<T>>::empty()) =~= Map::<K, Seq<T::V>>::empty());
}

pub broadcast group group_views {
    lemma_views_empty,
    lemma_views_push,
    lemma_views_len,
    lemma_views_index,
    lemma_views_remove,
    lemma_list_views_insert,
    lemma_list_views_remove,
    lemma_list_views_empty,
}

} // verus!

//! The reply of the models endpoint, and the identifiers it lists.

use vstd::prelude::*;

verus! {

/// One model as the server lists it.
#[derive(Clone, Debug, PartialEq, Eq)]
pub struct LmStudioModel {
    pub id: String,
    pub object: String,
    pub owned_by: String,
}

/// What a listed model holds, as text.
pub struct LmStudioModelView {
    pub id: Seq<char>,
    pub object: Seq<char>,
    pub owned_by: Seq<char>,
}

impl View for LmStudioModel {
    type V = LmStudioModelView;

    open spec fn view(&self) -> LmStudioModelView {
        LmStudioModelView { id: self.id@, object: self.object@, owned_by: self.owned_by@ }
    }
}

/// The envelope around the list of models.
#[derive(Clone, Debug, PartialEq, Eq)]
pub struct LmStudioModelsResponse {
    pub object: String,
    pub data: Vec<LmStudioModel>,
}

/// What the envelope holds: its tag and its records, in the server's order.
pub struct LmStudioModelsResponseView {
    pub object: Seq<char>,
    pub data: Seq<LmStudioModelView>,
}

impl View for LmStudioModelsResponse {
    type V = LmStudioModelsResponseView;

    open spec fn view(&self) -> LmStudioModelsResponseView {
        LmStudioModelsResponseView {
            object: self.object@,
            data: self.data@.map_values(|model: LmStudioModel| model@),
        }
    }
}

/// The identifier of each record, in order.
pub open spec fn identifiers(data: Seq<LmStudioModelView>) -> Seq<Seq<char>> {
    data.map_values(|model: LmStudioModelView| model.id)
}

/// The identifiers that are not empty, in order.
pub open spec fn non_empty(ids: Seq<Seq<char>>) -> Seq<Seq<char>> {
    ids.filter(|id: Seq<char>| id.len() > 0)
}

/// The identifiers that a list of records yields: those of its records that
/// have one, in the records' order.
pub open spec fn loaded_ids(data: Seq<LmStudioModelView>) -> Seq<Seq<char>> {
    non_empty(identifiers(data))
}

/// A further record adds its identifier at the end, if it has one.
pub proof fn lemma_loaded_ids_push(data: Seq<LmStudioModelView>, model: LmStudioModelView)
    ensures
        loaded_ids(data.push(model)) == if model.id.len() > 0 {
            loaded_ids(data).push(model.id)
        } else {
            loaded_ids(data)
        },
{
    reveal(Seq::filter);
    let ids = identifiers(data.push(model));
    assert(ids.drop_last() =~= identifiers(data));
    assert(ids.last() == model.id);
}

/// The number of records without an identifier.
pub open spec fn empty_count(data: Seq<LmStudioModelView>) -> nat {
    identifiers(data).filter(|id: Seq<char>| id.len() == 0).len()
}

/// The positions of the records that have an identifier, in rising order.
pub open spec fn loaded_positions(data: Seq<LmStudioModelView>) -> Seq<int>
    decreases data.len(),
{
    if data.len() == 0 {
        Seq::empty()
    } else if data.last().id.len() > 0 {
        loaded_positions(data.drop_last()).push(data.len() - 1)
    } else {
        loaded_positions(data.drop_last())
    }
}

/// Of N records, M of them without an identifier, N - M identifiers are
/// listed.
pub proof fn lemma_loaded_ids_count(data: Seq<LmStudioModelView>)
    ensures
        loaded_ids(data).len() + empty_count(data) == data.len(),
    decreases data.len(),
{
    reveal(Seq::filter);
    if data.len() > 0 {
        let rest = data.drop_last();
        lemma_loaded_ids_count(rest);
        assert(rest.push(data.last()) =~= data);
        lemma_loaded_ids_push(rest, data.last());
        assert(identifiers(data).drop_last() =~= identifiers(rest));
    }
}

/// No listed identifier is empty.
pub proof fn lemma_loaded_ids_are_not_empty(data: Seq<LmStudioModelView>)
    ensures
        forall|k: int| 0 <= k < loaded_ids(data).len() ==> (#[trigger] loaded_ids(data)[k]).len() > 0,
    decreases data.len(),
{
    reveal(Seq::filter);
    if data.len() > 0 {
        let rest = data.drop_last();
        lemma_loaded_ids_are_not_empty(rest);
        assert(rest.push(data.last()) =~= data);
        lemma_loaded_ids_push(rest, data.last());
    }
}

/// The listed identifiers are those of the records that have one, each once
/// and in the records' order: the identifier listed at place `k` is that of
/// the record at `loaded_positions(data)[k]`, these positions rise, and they
/// are the positions of all records with an identifier.
pub proof fn lemma_loaded_ids_keep_order(data: Seq<LmStudioModelView>)
    ensures
        loaded_positions(data).len() == loaded_ids(data).len(),
        forall|k: int|
            0 <= k < loaded_positions(data).len() ==> {
                &&& 0 <= (#[trigger] loaded_positions(data)[k]) < data.len()
                &&& data[loaded_positions(data)[k]].id == loaded_ids(data)[k]
            },
        forall|j: int, k: int|
            0 <= j < k < loaded_positions(data).len() ==> loaded_positions(data)[j]
                < loaded_positions(data)[k],
        forall|p: int|
            0 <= p < data.len() ==> ((#[trigger] data[p]).id.len() > 0 <==> loaded_positions(
                data,
            ).contains(p)),
    decreases data.len(),
{
    if data.len() > 0 {
        let rest = data.drop_last();
        let last = data.len() - 1;
        lemma_loaded_ids_keep_order(rest);
        assert(rest.push(data.last()) =~= data);
        lemma_loaded_ids_push(rest, data.last());
        let at = loaded_positions(data);
        let before = loaded_positions(rest);
        assert forall|k: int| 0 <= k < at.len() implies {
            &&& 0 <= (#[trigger] at[k]) < data.len()
            &&& data[at[k]].id == loaded_ids(data)[k]
        } by {
            if k < before.len() {
                assert(at[k] == before[k]);
                assert(rest[before[k]] == data[before[k]]);
                assert(loaded_ids(data)[k] == loaded_ids(rest)[k]);
            }
        }
        assert forall|j: int, k: int| 0 <= j < k < at.len() implies at[j] < at[k] by {
            assert(at[j] == before[j]);
            if k < before.len() {
                assert(at[k] == before[k]);
            }
        }
        assert forall|p: int| 0 <= p < data.len() implies ((#[trigger] data[p]).id.len() > 0
            <==> at.contains(p)) by {
            if p < last {
                assert(rest[p] == data[p]);
                if before.contains(p) {
                    let k = choose|k: int| 0 <= k < before.len() && before[k] == p;
                    assert(at[k] == p);
                }
                if at.contains(p) {
                    let k = choose|k: int| 0 <= k < at.len() && at[k] == p;
                    if k < before.len() {
                        assert(before[k] == p);
                    }
                }
            } else {
                if data[p].id.len() > 0 {
                    assert(at[at.len() - 1] == p);
                }
                if at.contains(p) {
                    let k = choose|k: int| 0 <= k < at.len() && at[k] == p;
                    if k < before.len() {
                        assert(before[k] == p);
                        assert(before[k] < rest.len());
                    }
                }
            }
        }
    } else {
        reveal(Seq::filter);
        assert(identifiers(data) =~= Seq::empty());
    }
}

/// Nothing is listed exactly when no record has an identifier.
pub proof fn lemma_nothing_loaded(data: Seq<LmStudioModelView>)
    ensures
        loaded_ids(data).len() == 0 <==> forall|p: int|
            0 <= p < data.len() ==> (#[trigger] data[p]).id.len() == 0,
{
    lemma_loaded_ids_keep_order(data);
    let at = loaded_positions(data);
    if at.len() > 0 {
        assert(data[at[0]].id.len() > 0) by {
            assert(at.contains(at[0]));
        }
    }
    if exists|p: int| 0 <= p < data.len() && (#[trigger] data[p]).id.len() > 0 {
        let p = choose|p: int| 0 <= p < data.len() && (#[trigger] data[p]).id.len() > 0;
        assert(at.contains(p));
    }
}

/// Collects the identifiers of the records that have one.
pub fn model_ids(response: &LmStudioModelsResponse) -> (ids: Vec<String>)
    ensures
        ids.deep_view() == loaded_ids(response@.data),
{
    let mut ids: Vec<String> = Vec::new();
    let mut next: usize = 0;
    proof {
        reveal(Seq::filter);
        assert(response@.data.take(0) =~= Seq::empty());
        assert(identifiers(Seq::empty()) =~= Seq::empty());
        assert(ids.deep_view() =~= loaded_ids(response@.data.take(0)));
    }
    while next < response.data.len()
        invariant
            next <= response.data.len(),
            ids.deep_view() == loaded_ids(response@.data.take(next as int)),
        decreases response.data.len() - next,
    {
        let model = &response.data[next];
        proof {
            let seen = response@.data.take(next as int);
            assert(response@.data.take(next + 1) =~= seen.push(model@));
            lemma_loaded_ids_push(seen, model@);
        }
        if !model.id.as_str().is_empty() {
            let ghost before = ids.deep_view();
            ids.push(model.id.clone());
            assert(ids.deep_view() =~= before.push(model.id@));
        }
        next = next + 1;
    }
    assert(response@.data.take(next as int) =~= response@.data);
    ids
}

} // verus!

//! Identities of views, id paths, and the view context that hands out ids and keeps
//! track of the current id path.
use vstd::prelude::*;

verus! {

/// The identity of a view in the view tree.
#[derive(Clone, Copy, Debug, PartialEq, Eq, Structural, Hash)]
pub struct Id {
    pub raw: u64,
}

impl Id {
    /// The id with the given raw value.
    pub fn from_raw(raw: u64) -> (r: Id)
        ensures
            r.raw == raw,
    {
        Id { raw }
    }

    /// The raw value of the id.
    pub fn to_raw(&self) -> (r: u64)
        ensures
            r == self.raw,
    {
        self.raw
    }
}

/// The path of ids from the root of the view tree to a view.
pub type IdPath = Vec<Id>;

/// A copy of an id path.
pub fn clone_id_path(path: &Vec<Id>) -> (r: Vec<Id>)
    ensures
        r@ == path@,
{
    let mut r: Vec<Id> = Vec::new();
    let mut i: usize = 0;
    while i < path.len()
        invariant
            i <= path.len(),
            r@ == path@.subrange(0, i as int),
        decreases path.len() - i,
    {
        r.push(path[i]);
        i = i + 1;
        assert(r@ =~= path@.subrange(0, i as int));
    }
    assert(path@.subrange(0, path.len() as int) =~= path@);
    r
}

/// Chooses the child that a message with the given id path is meant for: the index of
/// the first of `targets` (the ids of the children) that equals the first id of the
/// path. `None` when the path is empty or names none of them.
pub fn route(id_path: &[Id], targets: &[Id]) -> (r: Option<usize>)
    ensures
        match r {
            Some(i) => {
                &&& id_path@.len() > 0
                &&& i < targets@.len()
                &&& targets@[i as int] == id_path@[0]
                &&& forall|j: int| 0 <= j < i ==> targets@[j] != id_path@[0]
            },
            None => id_path@.len() == 0 || forall|j: int|
                0 <= j < targets@.len() ==> targets@[j] != id_path@[0],
        },
{
    if id_path.len() == 0 {
        return None;
    }
    let first = id_path[0];
    let mut i: usize = 0;
    while i < targets.len()
        invariant
            i <= targets@.len(),
            id_path@.len() > 0,
            first == id_path@[0],
            forall|j: int| 0 <= j < i ==> targets@[j] != id_path@[0],
        decreases targets.len() - i,
    {
        if targets[i] == first {
            return Some(i);
        }
        i = i + 1;
    }
    None
}

/// The view context: the id path of the view that is being built or rebuilt, the ids
/// of the pending asynchronous tasks, and the source of fresh ids.
pub struct Cx {
    pub id_path: Vec<Id>,
    pub pending_async: Vec<Id>,
    pub next_raw: u64,
}

/// No id occurs twice in `s`.
pub open spec fn no_duplicates(s: Seq<Id>) -> bool {
    forall|i: int, j: int| 0 <= i < j < s.len() ==> s[i] != s[j]
}

/// Whether no id occurs twice in `ids`.
pub fn has_no_duplicates(ids: &Vec<Id>) -> (r: bool)
    ensures
        r == no_duplicates(ids@),
{
    let mut i: usize = 0;
    while i < ids.len()
        invariant
            i <= ids@.len(),
            forall|a: int, b: int| 0 <= a < b < ids@.len() && a < i ==> ids@[a] != ids@[b],
        decreases ids.len() - i,
    {
        let mut j: usize = i + 1;
        while j < ids.len()
            invariant
                i < j <= ids@.len(),
                forall|a: int, b: int| 0 <= a < b < ids@.len() && a < i ==> ids@[a] != ids@[b],
                forall|b: int| i < b < j ==> ids@[i as int] != ids@[b],
            decreases ids.len() - j,
        {
            if ids[i] == ids[j] {
                return false;
            }
            j = j + 1;
        }
        i = i + 1;
    }
    true
}

impl Cx {
    /// A context with an empty id path and no pending tasks.
    pub fn new() -> (r: Cx)
        ensures
            r.id_path@ == Seq::<Id>::empty(),
            r.pending_async@ == Seq::<Id>::empty(),
            r.next_raw == 1,
    {
        Cx { id_path: Vec::new(), pending_async: Vec::new(), next_raw: 1 }
    }

    /// A fresh id: its raw value is larger than that of every id handed out before.
    pub fn next_id(&mut self) -> (r: Id)
        requires
            old(self).next_raw < u64::MAX,
        ensures
            r.raw == old(self).next_raw,
            final(self).next_raw == old(self).next_raw + 1,
            final(self).id_path == old(self).id_path,
            final(self).pending_async == old(self).pending_async,
    {
        let id = Id { raw: self.next_raw };
        self.next_raw = self.next_raw + 1;
        id
    }

    /// Appends `id` to the id path.
    pub fn push(&mut self, id: Id)
        ensures
            final(self).id_path@ == old(self).id_path@.push(id),
            final(self).pending_async == old(self).pending_async,
            final(self).next_raw == old(self).next_raw,
    {
        self.id_path.push(id);
    }

    /// Removes the last id of the id path (if any).
    pub fn pop(&mut self)
        ensures
            final(self).id_path@ == (if old(self).id_path@.len() > 0 {
                old(self).id_path@.drop_last()
            } else {
                old(self).id_path@
            }),
            final(self).pending_async == old(self).pending_async,
            final(self).next_raw == old(self).next_raw,
    {
        if self.id_path.len() > 0 {
            self.id_path.pop();
        }
    }

    /// Whether the id path is empty.
    pub fn is_empty(&self) -> (r: bool)
        ensures
            r == (self.id_path@.len() == 0),
    {
        self.id_path.len() == 0
    }

    /// The current id path.
    pub fn id_path(&self) -> (r: &Vec<Id>)
        ensures
            r@ == self.id_path@,
    {
        &self.id_path
    }

    /// Records `id` as the id of a pending asynchronous task (at most once).
    pub fn add_pending_async(&mut self, id: Id)
        requires
            no_duplicates(old(self).pending_async@),
        ensures
            no_duplicates(final(self).pending_async@),
            forall|x: Id|
                final(self).pending_async@.contains(x) <==> (old(self).pending_async@.contains(
                    x,
                ) || x == id),
            final(self).id_path == old(self).id_path,
            final(self).next_raw == old(self).next_raw,
    {
        let mut i: usize = 0;
        while i < self.pending_async.len()
            invariant
                i <= self.pending_async@.len(),
                self.pending_async@ == old(self).pending_async@,
                self.id_path == old(self).id_path,
                self.next_raw == old(self).next_raw,
                no_duplicates(old(self).pending_async@),
                forall|j: int| 0 <= j < i ==> self.pending_async@[j] != id,
            decreases self.pending_async.len() - i,
        {
            if self.pending_async[i] == id {
                return;
            }
            i = i + 1;
        }
        self.pending_async.push(id);
        assert forall|x: Id|
            self.pending_async@.contains(x) <==> (old(self).pending_async@.contains(x) || x
                == id) by {
            if x == id {
                assert(self.pending_async@[self.pending_async@.len() - 1] == id);
            }
            if old(self).pending_async@.contains(x) {
                let k = choose|k: int|
                    0 <= k < old(self).pending_async@.len() && old(self).pending_async@[k] == x;
                assert(self.pending_async@[k] == x);
            }
        }
    }

    /// Forgets all pending asynchronous tasks and hands their ids over.
    pub fn take_pending_async(&mut self) -> (r: Vec<Id>)
        ensures
            r@ == old(self).pending_async@,
            final(self).pending_async@ == Seq::<Id>::empty(),
            final(self).id_path == old(self).id_path,
            final(self).next_raw == old(self).next_raw,
    {
        let mut taken: Vec<Id> = Vec::new();
        core::mem::swap(&mut taken, &mut self.pending_async);
        taken
    }
}

/// Law: pushing an id and popping it again restores the id path.
pub proof fn lemma_push_pop(path: Seq<Id>, id: Id)
    ensures
        path.push(id).len() > 0,
        path.push(id).drop_last() == path,
{
    assert(path.push(id).drop_last() =~= path);
}

} // verus!

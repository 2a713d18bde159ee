//! Generic document access: what each operation on a collection of typed
//! records makes of the store's answer.
//!
//! The store is reached by the caller. Each operation here takes what the
//! store answered, a fault being carried as the text that describes it, and
//! decides the result.

use vstd::prelude::*;
use crate::err::{Error, ErrorView};

verus! {

/// What is to be done next with a cursor over matched documents.
#[derive(Debug, Clone, Copy, PartialEq, Eq)]
pub enum CursorAction {
    /// Move the cursor to the next document.
    Advance,
    /// Decode the document under the cursor.
    Decode,
    /// Leave the cursor: it is exhausted, or it failed.
    Stop,
}

/// The walk over a cursor: the values decoded so far, in the order of the
/// cursor, and the fault that ended the walk, if one did.
pub struct Traversal<T> {
    items: Vec<T>,
    fault: Option<Error>,
}

/// The mathematical value of a [`Traversal`].
pub ghost struct TraversalView<T> {
    pub items: Seq<T>,
    pub fault: Option<ErrorView>,
}

impl<T> View for Traversal<T> {
    type V = TraversalView<T>;

    closed spec fn view(&self) -> TraversalView<T> {
        TraversalView {
            items: self.items@,
            fault: match self.fault {
                Some(e) => Some(e@),
                None => None,
            },
        }
    }
}

impl<T> Traversal<T> {
    /// Begins a walk from the answer to the query that opens the cursor.
    pub fn begin(opened: Result<(), String>) -> (r: (Self, CursorAction))
        ensures
            r.0@.items == Seq::<T>::empty(),
            match opened {
                Ok(_) => r.0@.fault is None && r.1 == CursorAction::Advance,
                Err(d) => r.0@.fault == Some(ErrorView::StoreError(d@)) && r.1
                    == CursorAction::Stop,
            },
    {
        match opened {
            Ok(_) => (Traversal { items: Vec::new(), fault: None }, CursorAction::Advance),
            Err(d) => (
                Traversal { items: Vec::new(), fault: Some(Error::StoreError(d)) },
                CursorAction::Stop,
            ),
        }
    }

    /// Takes the answer to an advance: whether another document is there.
    pub fn advanced(&mut self, outcome: Result<bool, String>) -> (a: CursorAction)
        ensures
            final(self)@.items == old(self)@.items,
            match outcome {
                Ok(more) => final(self)@.fault == old(self)@.fault && a == (if old(self)@.fault
                    is None && more {
                    CursorAction::Decode
                } else {
                    CursorAction::Stop
                }),
                Err(d) => a == CursorAction::Stop && final(self)@.fault == (if old(self)@.fault
                    is None {
                    Some(ErrorView::StoreError(d@))
                } else {
                    old(self)@.fault
                }),
            },
    {
        if self.fault.is_some() {
            return CursorAction::Stop;
        }
        match outcome {
            Ok(true) => CursorAction::Decode,
            Ok(false) => CursorAction::Stop,
            Err(d) => {
                self.fault = Some(Error::StoreError(d));
                CursorAction::Stop
            },
        }
    }

    /// Takes the answer to a decode: the value of the document under the
    /// cursor, which is kept behind those that came before.
    pub fn decoded(&mut self, outcome: Result<T, String>) -> (a: CursorAction)
        ensures
            match outcome {
                Ok(item) => final(self)@.fault == old(self)@.fault && (if old(self)@.fault
                    is None {
                    final(self)@.items == old(self)@.items.push(item) && a
                        == CursorAction::Advance
                } else {
                    final(self)@.items == old(self)@.items && a == CursorAction::Stop
                }),
                Err(d) => final(self)@.items == old(self)@.items && a == CursorAction::Stop
                    && final(self)@.fault == (if old(self)@.fault is None {
                    Some(ErrorView::SerializationError(d@))
                } else {
                    old(self)@.fault
                }),
            },
    {
        if self.fault.is_some() {
            return CursorAction::Stop;
        }
        match outcome {
            Ok(item) => {
                self.items.push(item);
                CursorAction::Advance
            },
            Err(d) => {
                self.fault = Some(Error::SerializationError(d));
                CursorAction::Stop
            },
        }
    }
}

/// The operations that every typed record has over a collection.
pub trait Model: Sized {
    /// The record with a given identifier, from the store's answer to the
    /// lookup: `NotFound` where no document has the identifier.
    fn get_by_id(found: Result<Option<Self>, String>) -> (r: Result<Self, Error>)
        ensures
            match found {
                Ok(Some(record)) => r == Ok::<Self, Error>(record),
                Ok(None) => r is Err && r->Err_0@ == ErrorView::NotFound,
                Err(d) => r is Err && r->Err_0@ == ErrorView::StoreError(d@),
            },
    {
        match found {
            Ok(Some(record)) => Ok(record),
            Ok(None) => Err(Error::NotFound),
            Err(d) => Err(Error::StoreError(d)),
        }
    }

    /// The end of a deletion by identifier, from the number of documents
    /// that the store deleted: it succeeds also where none matched.
    fn delete_by_id(deleted: Result<u64, String>) -> (r: Result<(), Error>)
        ensures
            match deleted {
                Ok(_) => r is Ok,
                Err(d) => r is Err && r->Err_0@ == ErrorView::StoreError(d@),
            },
    {
        match deleted {
            Ok(_) => Ok(()),
            Err(d) => Err(Error::StoreError(d)),
        }
    }

    /// The identifier under which this record was inserted, from the
    /// store's answer to the insertion.
    fn insert<I>(&self, inserted: Result<I, String>) -> (r: Result<I, Error>)
        ensures
            match inserted {
                Ok(id) => r == Ok::<I, Error>(id),
                Err(d) => r is Err && r->Err_0@ == ErrorView::StoreError(d@),
            },
    {
        match inserted {
            Ok(id) => Ok(id),
            Err(d) => Err(Error::StoreError(d)),
        }
    }

    /// Every value of a filtered query, from the walk over its cursor: all
    /// that was decoded, in order, and none where nothing matched; the
    /// fault where the walk met one.
    fn get<T>(walk: Traversal<T>) -> (r: Result<Vec<T>, Error>)
        ensures
            match r {
                Ok(items) => walk@.fault is None && items@ == walk@.items,
                Err(e) => walk@.fault == Some(e@),
            },
    {
        match walk.fault {
            Some(e) => Err(e),
            None => Ok(walk.items),
        }
    }

    /// The first record that matches a filter, from the store's answer to
    /// the query: `NotFound` where none matches.
    fn get_one(found: Result<Option<Self>, String>) -> (r: Result<Self, Error>)
        ensures
            match found {
                Ok(Some(record)) => r == Ok::<Self, Error>(record),
                Ok(None) => r is Err && r->Err_0@ == ErrorView::NotFound,
                Err(d) => r is Err && r->Err_0@ == ErrorView::StoreError(d@),
            },
    {
        match found {
            Ok(Some(record)) => Ok(record),
            Ok(None) => Err(Error::NotFound),
            Err(d) => Err(Error::StoreError(d)),
        }
    }

    /// Every value of an aggregation pipeline, from the walk over its
    /// cursor. A pipeline is expected to yield at least one value:
    /// `NotFound` where it yields none.
    fn aggregate<T>(walk: Traversal<T>) -> (r: Result<Vec<T>, Error>)
        ensures
            match r {
                Ok(items) => walk@.fault is None && items@ == walk@.items && items@.len() >= 1,
                Err(e) => if walk@.fault is Some {
                    walk@.fault == Some(e@)
                } else {
                    walk@.items.len() == 0 && e@ == ErrorView::NotFound
                },
            },
    {
        match walk.fault {
            Some(e) => Err(e),
            None => {
                if walk.items.len() < 1 {
                    return Err(Error::NotFound);
                }
                Ok(walk.items)
            },
        }
    }
}

} // verus!

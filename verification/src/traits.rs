use vstd::prelude::*;

verus! {

/// The capability contract every content type must satisfy: it can
/// report and accept an external identity value. The two spec
/// functions give the mathematical model — the identity a value
/// carries, and the value obtained by replacing that identity — and
/// `lemma_identity_laws` obliges every implementation to the laws that
/// make the `Record` envelope round-trip exact.
pub trait Databasable: Sized {
    /// The identity the value currently carries, if any.
    spec fn spec_id(&self) -> Option<String>;

    /// The same value carrying `id` as its identity instead.
    spec fn spec_with_id(&self, id: Option<String>) -> Self;

    /// Replacing the identity touches nothing else: it reads back as
    /// what was written, it overwrites an earlier replacement, and
    /// writing back the identity a value already carries changes
    /// nothing.
    proof fn lemma_identity_laws(&self, i: Option<String>, j: Option<String>)
        ensures
            self.spec_with_id(i).spec_id() == i,
            self.spec_with_id(i).spec_with_id(j) == self.spec_with_id(j),
            self.spec_with_id(self.spec_id()) == *self,
    ;

    /// Reports the identity; absent means "not yet assigned".
    fn get_id(&self) -> (r: Option<String>)
        ensures
            r == self.spec_id(),
    ;

    /// Mutates the value in place to carry or clear its identity.
    fn set_id(&mut self, id: Option<String>)
        ensures
            *final(self) == old(self).spec_with_id(id),
    ;
}

/// A minimal content value — an optional identity and a data string —
/// serving as the library's reference implementation of
/// [`Databasable`].
#[derive(Debug, Clone, PartialEq, Eq)]
pub struct Item {
    pub id: Option<String>,
    pub data: String,
}

impl Databasable for Item {
    open spec fn spec_id(&self) -> Option<String> {
        self.id
    }

    open spec fn spec_with_id(&self, id: Option<String>) -> Self {
        Item { id, data: self.data }
    }

    proof fn lemma_identity_laws(&self, i: Option<String>, j: Option<String>) {
    }

    fn get_id(&self) -> (r: Option<String>) {
        match &self.id {
            Some(id) => Some(id.clone()),
            None => None,
        }
    }

    fn set_id(&mut self, id: Option<String>) {
        self.id = id;
    }
}

} // verus!

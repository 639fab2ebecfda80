//! What the registry asks of the host it runs in.

use crate::types::{ParaId, ParaLifeCycle};
use vstd::prelude::*;

verus! {

/// The host of the registry: the two lookups that a registration consults.
/// Both are answered from state that the registry does not own and never
/// changes, so nothing is promised of what they return: the contracts of the
/// registry hold for every answer.
pub trait Config {
    /// The accounts that sign calls and manage paras.
    type AccountId: PartialEq;

    /// The current lifecycle state of `id`, or nothing if the lifecycle
    /// tracker does not know the para.
    fn lifecycle(&self, id: ParaId) -> Option<ParaLifeCycle>;

    /// The manager of `id`, or nothing if the registrar has none on record.
    fn manager_of(&self, id: ParaId) -> Option<Self::AccountId>;
}

} // verus!

//! A multi-tenant access layer in front of a remote document store:
//! fluent builders that assemble read and partial-update query
//! strings, a record envelope separating caller content from
//! store-level identity and ownership metadata, an ownership
//! authorization protocol, and batched CRUD planning with
//! first-failure result folding. Everything here is pure and
//! verified; executing the planned strings against a live store is a
//! collaborator's job.

mod change;
mod client;
mod error;
mod fragment;
mod record;
mod scope;
mod select;
mod traits;

pub use change::{assignment, operator_str, rendered_change, Change, Operator as ChangeOperator};
pub use client::{
    all_ok, auth_decision, batch_report, exists_query, first_owner_of, fold_batch,
    lemma_batch_all_ok, lemma_batch_first_error, owned_query, single_mutation_result,
    update_one_outcome, AuthQueries, Client, CreatePlan, DeletePlan, MutationPlan, UpdateOutcome,
};
pub use error::{is_library_error, Error};
pub use fragment::{comma_join, comma_joined, conjoin, conjoined, id_condition, id_condition_str};
pub use record::{
    lemma_record_round_trip, lemma_unwrap_identity, spec_key_of, spec_unwrap, spec_wrap,
    unwrap_records, Record, RecordId,
};
pub use scope::{
    admin_owner, contains_admin, lemma_multi_owner_scope, lemma_single_owner_scope,
    lemma_filter_empty_iff_unrestricted, lemma_unrestricted_scope, owner_filter, owner_filter_str,
    quoted, quoted_list, scope_admits,
    scope_unrestricted,
};
pub use select::{
    base_query, first_or_not_found, js_map_body, js_map_unpack_body, js_wrapper_suffix,
    rendered_select, take_first, wrapped, Select,
};
pub use traits::{Databasable, Item};

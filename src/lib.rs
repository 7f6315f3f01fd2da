//! A ledger-integrated background worker: a task queue on the ledger, a
//! node-local fetch lock and result cache, a ring of recently submitted
//! numbers, and the admission policy for unsigned submissions.

pub mod error;
pub mod fetch;
pub mod ledger;
pub mod numbers;
pub mod remote;
pub mod runtime;
pub mod submit;

pub use error::{DispatchError, Error};
pub use fetch::{begin_fetch, finish_fetch, FetchStart, GithubInfo, LocalStore, LockState};
pub use ledger::{Activation, Call, CallKind, Event, Module, Origin, TaskQueue};
pub use numbers::{NumberBuffer, NUM_VEC_LEN};
pub use remote::{
    body_text, build_request, de_string_to_bytes, github_info_from_json, response_body, HttpOutcome,
    HttpRequest, JsonFields,
};
pub use runtime::{ExtBuilder, TestRuntime, Trait};
pub use submit::{validate_unsigned, InvalidTransaction, ValidTransaction};

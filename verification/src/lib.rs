//! A form-intake relay library.
//!
//! Accepted web-form submissions are forwarded to a webhook endpoint,
//! each tagged with a short, sortable, human-readable reference code.
//! The heart of the library is the reference-code generator in [`id`]:
//! a stateless scheme packing a time component, a sub-second counter and
//! a random suffix into a fixed-width string.  [`laws`] proves the global
//! properties of the generator, [`forms`] validates and renders the two
//! supported forms, and [`process`] decides the outcome of relaying a
//! submission.

pub mod forms;
pub mod id;
pub mod laws;
pub mod process;

pub use forms::apply_description;
pub use forms::apply_title;
pub use forms::check_arenanet_account;
pub use forms::check_discord_account;
pub use forms::check_email_address;
pub use forms::contact_title;
pub use forms::yes_no;
pub use forms::Profession;
pub use id::into_counter;
pub use id::into_counter_index;
pub use id::into_id;
pub use id::into_intervals;
pub use id::into_random;
pub use id::into_random_index;
pub use id::next;
pub use id::year_two_digits;
pub use laws::lemma_alphabet32_increasing;
pub use laws::lemma_counter_monotonic;
pub use laws::lemma_counter_wraparound;
pub use laws::lemma_encoders_deterministic;
pub use laws::lemma_id_shape;
pub use laws::lemma_random_suffix_total;
pub use process::process_outcome;
pub use process::Form;
pub use process::IntoPayload;
pub use process::ProcessError;
pub use process::Webhook;

//! A request/response bridge to an HTTP fetch implementation that lives on
//! the far side of a foreign-function boundary.
//!
//! The verified parts are the header-name rules, the flattening of a request
//! into its wire form, the classification of a wire response, the
//! install-once callback slot, buffer allocation and the dispatch itself.

mod buffer;
mod codec;
mod dispatch;
mod headers;
mod location;
mod registry;

pub use buffer::{allocate_buffer, BufferSizeError};
pub use codec::{encode_request, Method, Request, Settings, WireRequest};
pub use dispatch::{
    classify_response, echo_response, lemma_echo_round_trip, lemma_exception_wins, send,
    BackendProblem, Error, Response, WireException, WireResponse,
};
pub use headers::{Header, HeaderName, Headers, InvalidHeaderName};
pub use location::{Url, UrlError};
pub use registry::{after_register, lemma_install_once, AlreadyInitialized, CallbackSlot};

//! HTTP header values and the header mutations a processor hands back to Envoy.
use vstd::prelude::*;
use vstd::slice::slice_to_vec;
use vstd::utf8::encode_utf8;

verus! {

/// One header: its name, its value as text and its value as raw bytes.
#[derive(Debug, Clone, PartialEq, Eq)]
pub struct HeaderValue {
    pub key: String,
    pub value: String,
    pub raw_value: Vec<u8>,
}

/// How Envoy combines a header it is told to set with one already present.
#[derive(Debug, Clone, Copy, PartialEq, Eq, Structural)]
pub enum HeaderAppendAction {
    AppendIfExistsOrAdd,
    AddIfAbsent,
    OverwriteIfExistsOrAdd,
    OverwriteIfExists,
}

/// A header to set, with the rule for combining it with an existing one.
#[derive(Debug, Clone, PartialEq, Eq)]
pub struct HeaderValueOption {
    pub header: Option<HeaderValue>,
    pub append: Option<bool>,
    pub append_action: HeaderAppendAction,
    pub keep_empty_value: bool,
}

/// Headers to set and header names to remove.
#[derive(Debug, Clone, PartialEq, Eq)]
pub struct HeaderMutation {
    pub set_headers: Vec<HeaderValueOption>,
    pub remove_headers: Vec<String>,
}

/// A list of headers, as Envoy sends them to the processor.
#[derive(Debug, Clone, PartialEq, Eq)]
pub struct HeaderMap {
    pub headers: Vec<HeaderValue>,
}

pub struct HeaderValueView {
    pub key: Seq<char>,
    pub value: Seq<char>,
    pub raw_value: Seq<u8>,
}

pub struct HeaderValueOptionView {
    pub header: Option<HeaderValueView>,
    pub append: Option<bool>,
    pub append_action: HeaderAppendAction,
    pub keep_empty_value: bool,
}

pub struct HeaderMutationView {
    pub set_headers: Seq<HeaderValueOptionView>,
    pub remove_headers: Seq<Seq<char>>,
}

impl View for HeaderValue {
    type V = HeaderValueView;

    open spec fn view(&self) -> HeaderValueView {
        HeaderValueView { key: self.key@, value: self.value@, raw_value: self.raw_value@ }
    }
}

impl View for HeaderValueOption {
    type V = HeaderValueOptionView;

    open spec fn view(&self) -> HeaderValueOptionView {
        HeaderValueOptionView {
            header: match self.header {
                Some(h) => Some(h@),
                None => None,
            },
            append: self.append,
            append_action: self.append_action,
            keep_empty_value: self.keep_empty_value,
        }
    }
}

impl View for HeaderMutation {
    type V = HeaderMutationView;

    open spec fn view(&self) -> HeaderMutationView {
        HeaderMutationView {
            set_headers: self.set_headers@.map_values(|o: HeaderValueOption| o@),
            remove_headers: self.remove_headers@.map_values(|s: String| s@),
        }
    }
}

/// The header `key: value` whose raw bytes are the UTF-8 encoding of `value`,
/// added after any header of that name already present.
pub open spec fn spec_added_header(key: Seq<char>, value: Seq<char>) -> HeaderValueOptionView {
    HeaderValueOptionView {
        header: Some(HeaderValueView { key, value, raw_value: encode_utf8(value) }),
        append: None,
        append_action: HeaderAppendAction::AppendIfExistsOrAdd,
        keep_empty_value: false,
    }
}

/// The mutation that sets exactly the one header `key: value` and removes none.
pub open spec fn spec_set_one_header(key: Seq<char>, value: Seq<char>) -> HeaderMutationView {
    HeaderMutationView {
        set_headers: seq![spec_added_header(key, value)],
        remove_headers: Seq::empty(),
    }
}

/// Builds the header option that adds `key: value`, its raw bytes being the
/// UTF-8 encoding of `value`.
pub fn added_header(key: &str, value: &str) -> (option: HeaderValueOption)
    ensures
        option@ == spec_added_header(key@, value@),
{
    let raw_value = slice_to_vec(value.as_bytes());
    HeaderValueOption {
        header: Some(HeaderValue { key: key.to_string(), value: value.to_string(), raw_value }),
        append: None,
        append_action: HeaderAppendAction::AppendIfExistsOrAdd,
        keep_empty_value: false,
    }
}

/// Builds the mutation that sets the single header `key: value`.
pub fn set_one_header(key: &str, value: &str) -> (mutation: HeaderMutation)
    ensures
        mutation@ == spec_set_one_header(key@, value@),
{
    let mut set_headers: Vec<HeaderValueOption> = Vec::new();
    set_headers.push(added_header(key, value));
    let remove_headers: Vec<String> = Vec::new();
    let mutation = HeaderMutation { set_headers, remove_headers };
    assert(mutation@.set_headers =~= seq![spec_added_header(key@, value@)]);
    assert(mutation@.remove_headers =~= Seq::<Seq<char>>::empty());
    mutation
}

} // verus!

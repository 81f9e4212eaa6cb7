//! Locale resources: from the text of a locale file to its entries.
//!
//! A locale file is a YAML document that maps keys to localized strings. The
//! YAML itself is read by `serde_yaml`; what is decided here is what becomes
//! of its answer.

use crate::error::{AppError, AppErrorView};
use std::collections::HashMap;
use vstd::prelude::*;

verus! {

/// The error type of `serde_yaml`. Nothing is known of a value of it but its
/// message.
#[verifier::external_type_specification]
#[verifier::external_body]
pub struct ExternYamlError(serde_yaml::Error);

/// What `serde_yaml::from_str` makes of a text that is to be a map from
/// strings to strings: the entries, or the message of its error.
pub uninterp spec fn yaml_string_map(contents: Seq<char>) -> Result<
    Map<Seq<char>, Seq<char>>,
    Seq<char>,
>;

/// The message of an error of `serde_yaml`, as its `Display` writes it.
pub uninterp spec fn yaml_error_text(error: serde_yaml::Error) -> Seq<char>;

/// `serde_yaml::from_str`, for a map from strings to strings. The claim is
/// that the outcome depends on the text alone: the same text gives the same
/// entries, or an error with the same message.
#[verifier::external_body]
fn parse_string_map(contents: &str) -> (parsed: Result<HashMap<String, String>, serde_yaml::Error>)
    ensures
        match parsed {
            Ok(entries) => yaml_string_map(contents@) == Ok::<Map<Seq<char>, Seq<char>>, Seq<char>>(
                entries.deep_view(),
            ),
            Err(error) => yaml_string_map(contents@) == Err::<Map<Seq<char>, Seq<char>>, Seq<char>>(
                yaml_error_text(error),
            ),
        },
{
    serde_yaml::from_str::<HashMap<String, String>>(contents)
}

/// The `Display` of `serde_yaml::Error`, through `to_string`: the message
/// of the error.
#[verifier::external_body]
fn error_message(error: &serde_yaml::Error) -> (text: String)
    ensures
        text@ == yaml_error_text(*error),
{
    error.to_string()
}

/// The message for a locale file that is malformed, from the parser's
/// message.
pub open spec fn malformed_locale(detail: Seq<char>) -> AppErrorView {
    AppErrorView::Parse("failed to parse locale: "@ + detail)
}

/// Entries or the reason why there are none, as text.
pub open spec fn entries_text(entries: Result<HashMap<String, String>, AppError>) -> Result<
    Map<Seq<char>, Seq<char>>,
    AppErrorView,
> {
    match entries {
        Ok(map) => Ok(map.deep_view()),
        Err(error) => Err(error@),
    }
}

/// What the resolution makes of each thing that reading and parsing a locale
/// file may give: the entries; an error with the reader's message; an error
/// that names the parser's message.
pub open spec fn locale_of(read: Result<Seq<char>, Seq<char>>) -> Result<
    Map<Seq<char>, Seq<char>>,
    AppErrorView,
> {
    match read {
        Ok(contents) => match yaml_string_map(contents) {
            Ok(entries) => Ok(entries),
            Err(detail) => Err(malformed_locale(detail)),
        },
        Err(detail) => Err(AppErrorView::Io(detail)),
    }
}

/// What the host read, as text.
pub open spec fn read_text(read: Result<String, String>) -> Result<Seq<char>, Seq<char>> {
    match read {
        Ok(contents) => Ok(contents@),
        Err(detail) => Err(detail@),
    }
}

/// Turns the parser's answer into the library's: the entries as they are, an
/// error as a parse failure that holds the parser's message.
pub fn locale_entries(parsed: Result<HashMap<String, String>, serde_yaml::Error>) -> (entries:
    Result<HashMap<String, String>, AppError>)
    ensures
        match parsed {
            Ok(map) => entries == Ok::<HashMap<String, String>, AppError>(map),
            Err(error) => entries matches Err(failure) && failure@ == malformed_locale(
                yaml_error_text(error),
            ),
        },
{
    match parsed {
        Ok(map) => Ok(map),
        Err(error) => {
            let detail = error_message(&error);
            let message = String::from_str("failed to parse locale: ").concat(detail.as_str());
            Err(AppError::Parse(message))
        },
    }
}

/// Parses the text of a locale file.
pub fn parse_locale(contents: &str) -> (entries: Result<HashMap<String, String>, AppError>)
    ensures
        entries_text(entries) == locale_of(Ok(contents@)),
{
    locale_entries(parse_string_map(contents))
}

/// The result of loading a locale file, from what the host got when it read
/// the file: its text, or the message of the failure. A file that was found
/// and cannot be read or parsed is an error; no other file stands in for it.
pub fn read_locale(read: Result<String, String>) -> (entries: Result<
    HashMap<String, String>,
    AppError,
>)
    ensures
        entries_text(entries) == locale_of(read_text(read)),
{
    match read {
        Ok(contents) => parse_locale(contents.as_str()),
        Err(detail) => Err(AppError::Io(detail)),
    }
}

} // verus!

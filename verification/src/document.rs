//! Metric documents and the selection of one month from them.
//!
//! A metric is served as a JSON document whose top-level members are keyed
//! by month. Parsing is left to `serde_json`; what this module reads of a
//! parsed document is its serialized text and the serialized text of each of
//! its top-level members.

use vstd::prelude::*;
use vstd::string::StringExecFns;
use crate::errors::CliError;
use crate::metric::Metric;
use crate::text::optional_text;

verus! {

/// What a document holds, as plain sequences.
pub struct DocumentView {
    /// The serialized text of the whole document.
    pub text: Seq<char>,
    /// The key and the serialized text of each top-level member.
    pub members: Seq<(Seq<char>, Seq<char>)>,
}

/// What `serde_json::from_str` makes of a response body: the parsed
/// document, or `None` where it does not accept the body as JSON.
pub uninterp spec fn parsed_json(body: Seq<char>) -> Option<DocumentView>;

/// A parsed metric document.
#[derive(Debug)]
pub struct Document {
    text: String,
    members: Vec<(String, String)>,
}

/// The text of the first member at or after position `from` whose key is
/// `key`.
pub open spec fn member_from(
    members: Seq<(Seq<char>, Seq<char>)>,
    key: Seq<char>,
    from: nat,
) -> Option<Seq<char>>
    decreases members.len() - from,
{
    if from >= members.len() {
        None
    } else if members[from as int].0 == key {
        Some(members[from as int].1)
    } else {
        member_from(members, key, from + 1)
    }
}

/// The text of the member whose key is `key`, if there is one.
pub open spec fn member(members: Seq<(Seq<char>, Seq<char>)>, key: Seq<char>) -> Option<Seq<char>> {
    member_from(members, key, 0)
}

/// Whether no member is keyed by `key`.
pub open spec fn is_absent(members: Seq<(Seq<char>, Seq<char>)>, key: Seq<char>) -> bool {
    forall|i: int| 0 <= i < members.len() ==> (#[trigger] members[i]).0 != key
}

/// Whether the member at position `at` is the first that is keyed by `key`.
pub open spec fn is_first_at(
    members: Seq<(Seq<char>, Seq<char>)>,
    key: Seq<char>,
    at: int,
) -> bool {
    &&& 0 <= at < members.len()
    &&& members[at].0 == key
    &&& forall|i: int| 0 <= i < at ==> (#[trigger] members[i]).0 != key
}

/// What a query for `month` shows of a document: the whole text where no
/// month is asked for, else the text of the member of that month, or `NULL`
/// where the document has no such member.
pub open spec fn selection(document: DocumentView, month: Option<Seq<char>>) -> Seq<char> {
    match month {
        None => document.text,
        Some(month) => match member(document.members, month) {
            Some(text) => text,
            None => "NULL"@,
        },
    }
}

/// What a query for `month` shows of a response body, or `None` where the
/// body is not accepted as JSON.
pub open spec fn filtered(body: Seq<char>, month: Option<Seq<char>>) -> Option<Seq<char>> {
    match parsed_json(body) {
        Some(document) => Some(selection(document, month)),
        None => None,
    }
}

impl View for Document {
    type V = DocumentView;

    closed spec fn view(&self) -> DocumentView {
        DocumentView {
            text: self.text@,
            members: Seq::new(
                self.members@.len(),
                |i: int| (self.members@[i].0@, self.members@[i].1@),
            ),
        }
    }
}

/// `serde_json::from_str` into a `serde_json::Value`, which is then taken
/// apart: `Value::to_string` gives the text of the document and of each
/// member, `Value::as_object` and `Map::iter` give the top-level members in
/// the order of the map. A value that is no object has no members. The
/// contract only names the outcome: the same body always gives the same
/// document, or always fails.
#[verifier::external_body]
fn parse_document(body: &str) -> (r: Result<Document, serde_json::Error>)
    ensures
        match r {
            Ok(document) => parsed_json(body@) == Some(document@),
            Err(_) => parsed_json(body@) is None,
        },
{
    let value: serde_json::Value = serde_json::from_str(body)?;
    let members = match value.as_object() {
        Some(object) => {
            object.iter().map(|(key, member)| (key.clone(), member.to_string())).collect()
        },
        None => Vec::new(),
    };
    Ok(Document { text: value.to_string(), members })
}

impl Document {
    /// A document with the given text and top-level members.
    pub fn new(text: String, members: Vec<(String, String)>) -> (document: Self)
        ensures
            document@.text == text@,
            document@.members.len() == members@.len(),
            forall|i: int|
                0 <= i < members@.len() ==> #[trigger] document@.members[i] == (
                    members@[i].0@,
                    members@[i].1@,
                ),
    {
        Document { text, members }
    }

    /// Parses a response body.
    ///
    /// Fails with [`CliError::Sled`] exactly where the body is not accepted
    /// as JSON.
    pub fn parse(body: &str) -> (r: Result<Document, CliError>)
        ensures
            match r {
                Ok(document) => parsed_json(body@) == Some(document@),
                Err(error) => parsed_json(body@) is None && error is Sled,
            },
    {
        match parse_document(body) {
            Ok(document) => Ok(document),
            Err(error) => Err(CliError::Sled(error)),
        }
    }

    /// What a query for `month` shows of this document: the whole text where
    /// no month is asked for, else the text of the first member keyed by the
    /// month, or `NULL` where no member is keyed by it.
    pub fn select(&self, month: Option<&str>) -> (data: String)
        ensures
            data@ == selection(self@, optional_text(month)),
            month is None ==> data@ == self@.text,
            month matches Some(key) ==> {
                &&& is_absent(self@.members, key@) ==> data@ == "NULL"@
                &&& forall|i: int|
                    is_first_at(self@.members, key@, i) ==> data@ == (#[trigger] self@.members[i]).1
            },
    {
        match month {
            None => self.text.clone(),
            Some(key) => {
                let wanted = key.to_owned();
                let mut i: usize = 0;
                while i < self.members.len()
                    invariant
                        i <= self.members.len(),
                        month == Some(key),
                        wanted@ == key@,
                        self@.members.len() == self.members.len(),
                        member(self@.members, key@) == member_from(self@.members, key@, i as nat),
                        forall|j: int| 0 <= j < i ==> (#[trigger] self@.members[j]).0 != key@,
                    decreases self.members.len() - i,
                {
                    assert(self@.members[i as int] == (
                        self.members[i as int].0@,
                        self.members[i as int].1@,
                    ));
                    if self.members[i].0 == wanted {
                        return self.members[i].1.clone();
                    }
                    i = i + 1;
                }
                proof {
                    lemma_absent_member(self@.members, key@, 0);
                }
                String::from_str("NULL")
            },
        }
    }
}

/// A key that no member at or after `from` carries finds nothing.
pub proof fn lemma_absent_member(members: Seq<(Seq<char>, Seq<char>)>, key: Seq<char>, from: nat)
    requires
        forall|i: int| from <= i < members.len() ==> (#[trigger] members[i]).0 != key,
    ensures
        member_from(members, key, from) is None,
    decreases members.len() - from,
{
    if from < members.len() {
        lemma_absent_member(members, key, from + 1);
    }
}

/// Parses a response body and narrows it to `month`.
///
/// Fails with [`CliError::Sled`] exactly where the body is not accepted as
/// JSON.
pub fn filter_data(body: &str, month: Option<&str>) -> (r: Result<String, CliError>)
    ensures
        match r {
            Ok(data) => filtered(body@, optional_text(month)) == Some(data@),
            Err(error) => filtered(body@, optional_text(month)) is None && error is Sled,
        },
{
    match Document::parse(body) {
        Ok(document) => Ok(document.select(month)),
        Err(error) => Err(error),
    }
}

/// The result of one fetch: the metric, paired with what a query for `month`
/// shows of the response body.
///
/// Fails with [`CliError::Sled`] exactly where the body is not accepted as
/// JSON.
pub fn fetch_result(metric: &Metric, body: &str, month: Option<&str>) -> (r: Result<
    (Metric, String),
    CliError,
>)
    ensures
        match r {
            Ok(pair) => pair.0 == *metric && filtered(body@, optional_text(month)) == Some(pair.1@),
            Err(error) => filtered(body@, optional_text(month)) is None && error is Sled,
        },
{
    match filter_data(body, month) {
        Ok(data) => Ok((*metric, data)),
        Err(error) => Err(error),
    }
}

} // verus!

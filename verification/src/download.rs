//! Naming of the files that hold downloaded results.
//!
//! A result is never written over an existing file. Each file name carries a
//! numeric tag that starts at zero; the caller probes the file system and
//! reports what it found, and [`DownloadTarget::decide`] answers with what to
//! do next.

use vstd::prelude::*;
use vstd::string::StringExecFns;
use crate::errors::CliError;
use crate::metric::Metric;
use crate::text::{decimal, lemma_decimal_injective, optional_text, push_decimal};

verus! {

/// The part of a file name that stands for the month: the month filter, or
/// `alltime` where there is none.
pub open spec fn month_part(month: Option<Seq<char>>) -> Seq<char> {
    match month {
        Some(month) => month,
        None => "alltime"@,
    }
}

/// What stands before the tag in a file name.
pub open spec fn file_name_head(repo: Seq<char>, metric: Metric) -> Seq<char> {
    repo + "-"@ + metric.canonical_name() + "_"@
}

/// What stands behind the tag in a file name.
pub open spec fn file_name_tail(month: Option<Seq<char>>) -> Seq<char> {
    "-"@ + month_part(month) + ".json"@
}

/// The name of the file that holds `metric` of `repo` for `month` under the
/// tag `tag`: `{repo}-{metric}_{tag}-{month}.json`.
pub open spec fn file_name(
    repo: Seq<char>,
    metric: Metric,
    tag: nat,
    month: Option<Seq<char>>,
) -> Seq<char> {
    file_name_head(repo, metric) + decimal(tag) + file_name_tail(month)
}

/// The name of the file that holds `metric` of `repo` for `month` under the
/// tag `tag`.
pub fn download_file_name(
    repo: &str,
    metric: &Metric,
    tag: u64,
    month: Option<&str>,
) -> (name: String)
    ensures
        name@ == file_name(repo@, *metric, tag as nat, optional_text(month)),
{
    let mut name = String::from_str(repo);
    name.append("-");
    name.append(metric.to_string().as_str());
    name.append("_");
    assert(name@ == file_name_head(repo@, *metric));
    push_decimal(&mut name, tag);
    name.append("-");
    match month {
        Some(month) => name.append(month),
        None => name.append("alltime"),
    }
    name.append(".json");
    assert(name@ =~= file_name(repo@, *metric, tag as nat, optional_text(month)));
    name
}

/// What to do with the current candidate.
#[derive(Debug)]
pub enum Decision {
    /// Give up with this error.
    Reject(CliError),
    /// The tag was raised: probe the new candidate.
    Retry,
    /// Write the data to the candidate.
    Write,
}

/// The search for a free file name for one result.
pub struct DownloadTarget {
    repo: String,
    metric: Metric,
    month: Option<String>,
    tag: u64,
}

impl DownloadTarget {
    /// The repository identifier.
    pub closed spec fn repo(&self) -> Seq<char> {
        self.repo@
    }

    /// The metric whose result is to be written.
    pub closed spec fn metric(&self) -> Metric {
        self.metric
    }

    /// The month filter, if any.
    pub closed spec fn month(&self) -> Option<Seq<char>> {
        match self.month {
            Some(month) => Some(month@),
            None => None,
        }
    }

    /// The tag of the current candidate.
    pub closed spec fn spec_tag(&self) -> nat {
        self.tag as nat
    }

    /// The file name of the current candidate.
    pub open spec fn candidate(&self) -> Seq<char> {
        file_name(self.repo(), self.metric(), self.spec_tag(), self.month())
    }

    /// Starts the search at tag zero.
    pub fn new(repo: &str, metric: &Metric, month: Option<&str>) -> (target: Self)
        ensures
            target.repo() == repo@,
            target.metric() == *metric,
            target.month() == optional_text(month),
            target.spec_tag() == 0,
    {
        let month = match month {
            Some(month) => Some(String::from_str(month)),
            None => None,
        };
        DownloadTarget { repo: String::from_str(repo), metric: *metric, month, tag: 0 }
    }

    /// The tag of the current candidate.
    pub fn tag(&self) -> (tag: u64)
        ensures
            tag == self.spec_tag(),
    {
        self.tag
    }

    /// The file name of the current candidate.
    pub fn file_name(&self) -> (name: String)
        ensures
            name@ == self.candidate(),
    {
        let month = match &self.month {
            Some(month) => Some(month.as_str()),
            None => None,
        };
        download_file_name(self.repo.as_str(), &self.metric, self.tag, month)
    }

    /// Decides what to do after the caller has probed the path of the
    /// current candidate: `absolute` says whether the path is absolute,
    /// `occupied` whether something exists there.
    ///
    /// A path that is not absolute is rejected with `invalid download path`.
    /// An occupied path is left alone: the tag goes up by one and the next
    /// candidate is to be probed. Only a path where nothing exists is
    /// written to.
    pub fn decide(&mut self, absolute: bool, occupied: bool) -> (decision: Decision)
        requires
            absolute && occupied ==> old(self).spec_tag() < u64::MAX,
        ensures
            final(self).repo() == old(self).repo(),
            final(self).metric() == old(self).metric(),
            final(self).month() == old(self).month(),
            !absolute ==> {
                &&& decision matches Decision::Reject(error) && error.is_message(
                    "invalid download path"@,
                )
                &&& final(self).spec_tag() == old(self).spec_tag()
            },
            absolute && occupied ==> {
                &&& decision is Retry
                &&& final(self).spec_tag() == old(self).spec_tag() + 1
            },
            absolute && !occupied ==> {
                &&& decision is Write
                &&& final(self).spec_tag() == old(self).spec_tag()
            },
    {
        if !absolute {
            Decision::Reject(CliError::String(String::from_str("invalid download path")))
        } else if occupied {
            self.tag = self.tag + 1;
            Decision::Retry
        } else {
            Decision::Write
        }
    }
}

/// Two different tags never give the same file name, whatever the
/// repository, the metric and the month are.
pub proof fn lemma_tags_give_distinct_names(
    repo: Seq<char>,
    metric: Metric,
    month: Option<Seq<char>>,
    first: nat,
    second: nat,
)
    requires
        first != second,
    ensures
        file_name(repo, metric, first, month) != file_name(repo, metric, second, month),
{
    let head = file_name_head(repo, metric);
    let tail = file_name_tail(month);
    let a = head + decimal(first) + tail;
    let b = head + decimal(second) + tail;
    if a == b {
        assert(a.len() == b.len());
        assert(decimal(first).len() == decimal(second).len());
        let from = head.len() as int;
        let to = from + decimal(first).len();
        assert(decimal(first) =~= a.subrange(from, to));
        assert(decimal(second) =~= b.subrange(from, to));
        lemma_decimal_injective(first, second);
    }
}

} // verus!

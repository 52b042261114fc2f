//! Construction of the URL under which a metric of a repository is served.

use vstd::prelude::*;
use vstd::string::StringExecFns;
use crate::errors::CliError;
use crate::metric::Metric;

verus! {

/// The root under which the metric documents of every repository are served.
pub const ROOT: &'static str = "https://oss.x-lab.info/open-digger/github/";

/// The URL of the document that holds `metric` for the repository `repo`:
/// the root, the repository identifier as given, a slash, the canonical name
/// of the metric and the extension `.json`.
pub open spec fn metric_url(repo: Seq<char>, metric: Metric) -> Seq<char> {
    ROOT@ + repo + "/"@ + metric.canonical_name() + ".json"@
}

/// Builds the URLs of one repository's metric documents.
pub struct UrlBuilder<'a> {
    repo_name: &'a str,
}

impl<'a> View for UrlBuilder<'a> {
    type V = Seq<char>;

    /// The repository identifier that the builder was made for.
    closed spec fn view(&self) -> Seq<char> {
        self.repo_name@
    }
}

impl<'a> UrlBuilder<'a> {
    /// A builder for the repository `repo_name`, which is taken as it is.
    #[inline]
    pub fn new(repo_name: &'a str) -> (builder: Self)
        ensures
            builder@ == repo_name@,
    {
        Self { repo_name }
    }

    /// The URL of the document that holds `metric` for the repository.
    #[inline]
    pub fn build_url_with_metric(&self, metric: &Metric) -> (url: String)
        ensures
            url@ == metric_url(self@, *metric),
    {
        let mut url = String::from_str(ROOT);
        url.append(self.repo_name);
        url.append("/");
        url.append(metric.to_string().as_str());
        url.append(".json");
        url
    }

    /// The URL of the document that holds the chosen metric, or the error
    /// `metric required` when none was chosen.
    pub fn build_url(&self, metric: Option<&Metric>) -> (r: Result<String, CliError>)
        ensures
            match metric {
                Some(metric) => r matches Ok(url) && url@ == metric_url(self@, *metric),
                None => r matches Err(error) && error.is_message("metric required"@),
            },
    {
        match metric {
            Some(metric) => Ok(self.build_url_with_metric(metric)),
            None => Err(CliError::String(String::from_str("metric required"))),
        }
    }
}

} // verus!

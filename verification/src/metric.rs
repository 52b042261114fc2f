//! The catalog of metrics that can be queried for a repository.

use vstd::prelude::*;
use vstd::string::StringExecFns;
use crate::errors::CliError;
use crate::text::{
    camel_to_snake_case, is_ascii_text, is_snake_name, lowercase, snake_case, snake_prefix,
    str_to_lowercase,
};

verus! {

/// A statistic that is published for every repository.
#[derive(Clone, Copy, Debug, PartialEq, Eq, Structural, Hash)]
pub enum Metric {
    /// When the repository is active, by weekday and hour.
    ActiveDatesAndTimes,
    /// Stars given to the repository.
    Stars,
    /// Forks of the repository.
    TechnicalFork,
    /// Accounts that took part in the repository.
    Participants,
    /// Contributors seen for the first time.
    NewContributors,
    /// The new contributors, by account.
    NewContributorsDetail,
    /// Contributors that stopped contributing.
    InactiveContributors,
    /// How few contributors carry half of the activity.
    BusFactor,
    /// The contributors behind the bus factor.
    BusFactorDetail,
    /// Issues opened.
    IssuesNew,
    /// Issues closed.
    IssuesClosed,
    /// Comments on issues.
    IssueComments,
    /// Time until an issue gets its first response.
    IssueResponseTime,
    /// Time until an issue is closed.
    IssueResolutionDuration,
    /// Age of the open issues.
    IssueAge,
    /// Lines added by merged changes.
    CodeChangeLinesAdd,
    /// Lines removed by merged changes.
    CodeChangeLinesRemove,
    /// Lines added minus lines removed.
    CodeChangeLinesSum,
    /// Change requests opened.
    ChangeRequests,
    /// Change requests merged.
    ChangeRequestsAccepted,
    /// Reviews on change requests.
    ChangeRequestsReviews,
    /// Time until a change request gets its first response.
    ChangeRequestResponseTime,
    /// Time until a change request is closed.
    ChangeRequestResolutionDuration,
    /// Age of the open change requests.
    ChangeRequestAge,
    /// Activity by account.
    ActivityDetails,
}

impl Metric {
    /// The name under which the metric is declared, in camel case.
    pub open spec fn declared_name(self) -> Seq<char> {
        match self {
            Metric::ActiveDatesAndTimes => "ActiveDatesAndTimes"@,
            Metric::Stars => "Stars"@,
            Metric::TechnicalFork => "TechnicalFork"@,
            Metric::Participants => "Participants"@,
            Metric::NewContributors => "NewContributors"@,
            Metric::NewContributorsDetail => "NewContributorsDetail"@,
            Metric::InactiveContributors => "InactiveContributors"@,
            Metric::BusFactor => "BusFactor"@,
            Metric::BusFactorDetail => "BusFactorDetail"@,
            Metric::IssuesNew => "IssuesNew"@,
            Metric::IssuesClosed => "IssuesClosed"@,
            Metric::IssueComments => "IssueComments"@,
            Metric::IssueResponseTime => "IssueResponseTime"@,
            Metric::IssueResolutionDuration => "IssueResolutionDuration"@,
            Metric::IssueAge => "IssueAge"@,
            Metric::CodeChangeLinesAdd => "CodeChangeLinesAdd"@,
            Metric::CodeChangeLinesRemove => "CodeChangeLinesRemove"@,
            Metric::CodeChangeLinesSum => "CodeChangeLinesSum"@,
            Metric::ChangeRequests => "ChangeRequests"@,
            Metric::ChangeRequestsAccepted => "ChangeRequestsAccepted"@,
            Metric::ChangeRequestsReviews => "ChangeRequestsReviews"@,
            Metric::ChangeRequestResponseTime => "ChangeRequestResponseTime"@,
            Metric::ChangeRequestResolutionDuration => "ChangeRequestResolutionDuration"@,
            Metric::ChangeRequestAge => "ChangeRequestAge"@,
            Metric::ActivityDetails => "ActivityDetails"@,
        }
    }

    /// The name of the metric as it appears in a URL: lowercase words
    /// separated by underscores.
    pub open spec fn canonical_name(self) -> Seq<char> {
        match self {
            Metric::ActiveDatesAndTimes => "active_dates_and_times"@,
            Metric::Stars => "stars"@,
            Metric::TechnicalFork => "technical_fork"@,
            Metric::Participants => "participants"@,
            Metric::NewContributors => "new_contributors"@,
            Metric::NewContributorsDetail => "new_contributors_detail"@,
            Metric::InactiveContributors => "inactive_contributors"@,
            Metric::BusFactor => "bus_factor"@,
            Metric::BusFactorDetail => "bus_factor_detail"@,
            Metric::IssuesNew => "issues_new"@,
            Metric::IssuesClosed => "issues_closed"@,
            Metric::IssueComments => "issue_comments"@,
            Metric::IssueResponseTime => "issue_response_time"@,
            Metric::IssueResolutionDuration => "issue_resolution_duration"@,
            Metric::IssueAge => "issue_age"@,
            Metric::CodeChangeLinesAdd => "code_change_lines_add"@,
            Metric::CodeChangeLinesRemove => "code_change_lines_remove"@,
            Metric::CodeChangeLinesSum => "code_change_lines_sum"@,
            Metric::ChangeRequests => "change_requests"@,
            Metric::ChangeRequestsAccepted => "change_requests_accepted"@,
            Metric::ChangeRequestsReviews => "change_requests_reviews"@,
            Metric::ChangeRequestResponseTime => "change_request_response_time"@,
            Metric::ChangeRequestResolutionDuration => "change_request_resolution_duration"@,
            Metric::ChangeRequestAge => "change_request_age"@,
            Metric::ActivityDetails => "activity_details"@,
        }
    }

    /// The declared name of the metric in lowercase letters.
    pub open spec fn lowercase_name(self) -> Seq<char> {
        match self {
            Metric::ActiveDatesAndTimes => "activedatesandtimes"@,
            Metric::Stars => "stars"@,
            Metric::TechnicalFork => "technicalfork"@,
            Metric::Participants => "participants"@,
            Metric::NewContributors => "newcontributors"@,
            Metric::NewContributorsDetail => "newcontributorsdetail"@,
            Metric::InactiveContributors => "inactivecontributors"@,
            Metric::BusFactor => "busfactor"@,
            Metric::BusFactorDetail => "busfactordetail"@,
            Metric::IssuesNew => "issuesnew"@,
            Metric::IssuesClosed => "issuesclosed"@,
            Metric::IssueComments => "issuecomments"@,
            Metric::IssueResponseTime => "issueresponsetime"@,
            Metric::IssueResolutionDuration => "issueresolutionduration"@,
            Metric::IssueAge => "issueage"@,
            Metric::CodeChangeLinesAdd => "codechangelinesadd"@,
            Metric::CodeChangeLinesRemove => "codechangelinesremove"@,
            Metric::CodeChangeLinesSum => "codechangelinessum"@,
            Metric::ChangeRequests => "changerequests"@,
            Metric::ChangeRequestsAccepted => "changerequestsaccepted"@,
            Metric::ChangeRequestsReviews => "changerequestsreviews"@,
            Metric::ChangeRequestResponseTime => "changerequestresponsetime"@,
            Metric::ChangeRequestResolutionDuration => "changerequestresolutionduration"@,
            Metric::ChangeRequestAge => "changerequestage"@,
            Metric::ActivityDetails => "activitydetails"@,
        }
    }

    /// The position of the metric in the catalog.
    pub open spec fn position(self) -> nat {
        match self {
            Metric::ActiveDatesAndTimes => 0,
            Metric::Stars => 1,
            Metric::TechnicalFork => 2,
            Metric::Participants => 3,
            Metric::NewContributors => 4,
            Metric::NewContributorsDetail => 5,
            Metric::InactiveContributors => 6,
            Metric::BusFactor => 7,
            Metric::BusFactorDetail => 8,
            Metric::IssuesNew => 9,
            Metric::IssuesClosed => 10,
            Metric::IssueComments => 11,
            Metric::IssueResponseTime => 12,
            Metric::IssueResolutionDuration => 13,
            Metric::IssueAge => 14,
            Metric::CodeChangeLinesAdd => 15,
            Metric::CodeChangeLinesRemove => 16,
            Metric::CodeChangeLinesSum => 17,
            Metric::ChangeRequests => 18,
            Metric::ChangeRequestsAccepted => 19,
            Metric::ChangeRequestsReviews => 20,
            Metric::ChangeRequestResponseTime => 21,
            Metric::ChangeRequestResolutionDuration => 22,
            Metric::ChangeRequestAge => 23,
            Metric::ActivityDetails => 24,
        }
    }

    /// Every metric, in catalog order.
    pub open spec fn catalog() -> Seq<Metric> {
        seq![
            Metric::ActiveDatesAndTimes,
            Metric::Stars,
            Metric::TechnicalFork,
            Metric::Participants,
            Metric::NewContributors,
            Metric::NewContributorsDetail,
            Metric::InactiveContributors,
            Metric::BusFactor,
            Metric::BusFactorDetail,
            Metric::IssuesNew,
            Metric::IssuesClosed,
            Metric::IssueComments,
            Metric::IssueResponseTime,
            Metric::IssueResolutionDuration,
            Metric::IssueAge,
            Metric::CodeChangeLinesAdd,
            Metric::CodeChangeLinesRemove,
            Metric::CodeChangeLinesSum,
            Metric::ChangeRequests,
            Metric::ChangeRequestsAccepted,
            Metric::ChangeRequestsReviews,
            Metric::ChangeRequestResponseTime,
            Metric::ChangeRequestResolutionDuration,
            Metric::ChangeRequestAge,
            Metric::ActivityDetails,
        ]
    }

    /// Whether `text` names this metric when letter case is ignored.
    pub open spec fn is_named_by(self, text: Seq<char>) -> bool {
        lowercase(text) == lowercase(self.declared_name())
    }

    /// The metric that `text` names: the first of the catalog whose declared
    /// name equals `text` up to letter case.
    pub open spec fn named_by(text: Seq<char>) -> Option<Metric> {
        Self::first_named_by(text, 0)
    }

    /// The first metric at or after position `from` of the catalog that
    /// `text` names.
    pub open spec fn first_named_by(text: Seq<char>, from: nat) -> Option<Metric>
        decreases Self::catalog().len() - from,
    {
        if from >= Self::catalog().len() {
            None
        } else if Self::catalog()[from as int].is_named_by(text) {
            Some(Self::catalog()[from as int])
        } else {
            Self::first_named_by(text, from + 1)
        }
    }

    /// The name under which the metric is declared, in camel case.
    pub fn name(&self) -> (name: &'static str)
        ensures
            name@ == self.declared_name(),
    {
        match self {
            Metric::ActiveDatesAndTimes => "ActiveDatesAndTimes",
            Metric::Stars => "Stars",
            Metric::TechnicalFork => "TechnicalFork",
            Metric::Participants => "Participants",
            Metric::NewContributors => "NewContributors",
            Metric::NewContributorsDetail => "NewContributorsDetail",
            Metric::InactiveContributors => "InactiveContributors",
            Metric::BusFactor => "BusFactor",
            Metric::BusFactorDetail => "BusFactorDetail",
            Metric::IssuesNew => "IssuesNew",
            Metric::IssuesClosed => "IssuesClosed",
            Metric::IssueComments => "IssueComments",
            Metric::IssueResponseTime => "IssueResponseTime",
            Metric::IssueResolutionDuration => "IssueResolutionDuration",
            Metric::IssueAge => "IssueAge",
            Metric::CodeChangeLinesAdd => "CodeChangeLinesAdd",
            Metric::CodeChangeLinesRemove => "CodeChangeLinesRemove",
            Metric::CodeChangeLinesSum => "CodeChangeLinesSum",
            Metric::ChangeRequests => "ChangeRequests",
            Metric::ChangeRequestsAccepted => "ChangeRequestsAccepted",
            Metric::ChangeRequestsReviews => "ChangeRequestsReviews",
            Metric::ChangeRequestResponseTime => "ChangeRequestResponseTime",
            Metric::ChangeRequestResolutionDuration => "ChangeRequestResolutionDuration",
            Metric::ChangeRequestAge => "ChangeRequestAge",
            Metric::ActivityDetails => "ActivityDetails",
        }
    }

    /// The canonical name of the metric, derived from its declared name.
    pub fn to_string(&self) -> (name: String)
        ensures
            name@ == self.canonical_name(),
            name@ == snake_case(self.declared_name()),
            is_snake_name(name@),
    {
        proof {
            lemma_canonical_name_is_snake_case(*self);
        }
        camel_to_snake_case(self.name())
    }

    /// Every metric, in catalog order.
    pub fn valid_metrics() -> (metrics: Vec<Metric>)
        ensures
            metrics@ == Self::catalog(),
    {
        let metrics = vec![
            Metric::ActiveDatesAndTimes,
            Metric::Stars,
            Metric::TechnicalFork,
            Metric::Participants,
            Metric::NewContributors,
            Metric::NewContributorsDetail,
            Metric::InactiveContributors,
            Metric::BusFactor,
            Metric::BusFactorDetail,
            Metric::IssuesNew,
            Metric::IssuesClosed,
            Metric::IssueComments,
            Metric::IssueResponseTime,
            Metric::IssueResolutionDuration,
            Metric::IssueAge,
            Metric::CodeChangeLinesAdd,
            Metric::CodeChangeLinesRemove,
            Metric::CodeChangeLinesSum,
            Metric::ChangeRequests,
            Metric::ChangeRequestsAccepted,
            Metric::ChangeRequestsReviews,
            Metric::ChangeRequestResponseTime,
            Metric::ChangeRequestResolutionDuration,
            Metric::ChangeRequestAge,
            Metric::ActivityDetails,
        ];
        assert(metrics@ =~= Self::catalog());
        metrics
    }
}

impl std::str::FromStr for Metric {
    type Err = CliError;

    /// Finds the metric that `s` names, ignoring letter case.
    ///
    /// Fails with `invalid variant: ` followed by `s` when `s` names no
    /// metric of the catalog.
    fn from_str(s: &str) -> (r: Result<Metric, CliError>)
        ensures
            match r {
                Ok(metric) => metric.is_named_by(s@) && Metric::named_by(s@) == Some(metric),
                Err(error) => {
                    &&& forall|metric: Metric| !metric.is_named_by(s@)
                    &&& Metric::named_by(s@) is None
                    &&& error.is_message("invalid variant: "@ + s@)
                },
            },
    {
        let lowered = str_to_lowercase(s);
        let metrics = Metric::valid_metrics();
        let mut i: usize = 0;
        while i < metrics.len()
            invariant
                i <= metrics.len(),
                metrics@ == Metric::catalog(),
                lowered@ == lowercase(s@),
                Metric::named_by(s@) == Metric::first_named_by(s@, i as nat),
            decreases metrics.len() - i,
        {
            let candidate = str_to_lowercase(metrics[i].name());
            if lowered == candidate {
                return Ok(metrics[i]);
            }
            i = i + 1;
        }
        proof {
            assert forall|metric: Metric| !metric.is_named_by(s@) by {
                lemma_named_by_finds_the_named(s@, metric);
            }
        }
        Err(CliError::String("invalid variant: ".to_owned().concat(s)))
    }
}

/// The names of `ActiveDatesAndTimes`.
proof fn lemma_names_of_active_dates_and_times()
    ensures
        snake_case("ActiveDatesAndTimes"@) == "active_dates_and_times"@,
        is_snake_name("active_dates_and_times"@),
        lowercase("ActiveDatesAndTimes"@) == "activedatesandtimes"@,
{
    reveal_strlit("ActiveDatesAndTimes");
    reveal_strlit("active_dates_and_times");
    reveal_strlit("activedatesandtimes");
    reveal_with_fuel(snake_prefix, 32);
    assert(snake_case("ActiveDatesAndTimes"@) =~= "active_dates_and_times"@);
    assert(is_ascii_text("ActiveDatesAndTimes"@));
    assert(lowercase("ActiveDatesAndTimes"@) =~= "activedatesandtimes"@);
}

/// The names of `Stars`.
proof fn lemma_names_of_stars()
    ensures
        snake_case("Stars"@) == "stars"@,
        is_snake_name("stars"@),
        lowercase("Stars"@) == "stars"@,
{
    reveal_strlit("Stars");
    reveal_strlit("stars");
    reveal_with_fuel(snake_prefix, 32);
    assert(snake_case("Stars"@) =~= "stars"@);
    assert(is_ascii_text("Stars"@));
    assert(lowercase("Stars"@) =~= "stars"@);
}

/// The names of `TechnicalFork`.
proof fn lemma_names_of_technical_fork()
    ensures
        snake_case("TechnicalFork"@) == "technical_fork"@,
        is_snake_name("technical_fork"@),
        lowercase("TechnicalFork"@) == "technicalfork"@,
{
    reveal_strlit("TechnicalFork");
    reveal_strlit("technical_fork");
    reveal_strlit("technicalfork");
    reveal_with_fuel(snake_prefix, 32);
    assert(snake_case("TechnicalFork"@) =~= "technical_fork"@);
    assert(is_ascii_text("TechnicalFork"@));
    assert(lowercase("TechnicalFork"@) =~= "technicalfork"@);
}

/// The names of `Participants`.
proof fn lemma_names_of_participants()
    ensures
        snake_case("Participants"@) == "participants"@,
        is_snake_name("participants"@),
        lowercase("Participants"@) == "participants"@,
{
    reveal_strlit("Participants");
    reveal_strlit("participants");
    reveal_with_fuel(snake_prefix, 32);
    assert(snake_case("Participants"@) =~= "participants"@);
    assert(is_ascii_text("Participants"@));
    assert(lowercase("Participants"@) =~= "participants"@);
}

/// The names of `NewContributors`.
proof fn lemma_names_of_new_contributors()
    ensures
        snake_case("NewContributors"@) == "new_contributors"@,
        is_snake_name("new_contributors"@),
        lowercase("NewContributors"@) == "newcontributors"@,
{
    reveal_strlit("NewContributors");
    reveal_strlit("new_contributors");
    reveal_strlit("newcontributors");
    reveal_with_fuel(snake_prefix, 32);
    assert(snake_case("NewContributors"@) =~= "new_contributors"@);
    assert(is_ascii_text("NewContributors"@));
    assert(lowercase("NewContributors"@) =~= "newcontributors"@);
}

/// The names of `NewContributorsDetail`.
proof fn lemma_names_of_new_contributors_detail()
    ensures
        snake_case("NewContributorsDetail"@) == "new_contributors_detail"@,
        is_snake_name("new_contributors_detail"@),
        lowercase("NewContributorsDetail"@) == "newcontributorsdetail"@,
{
    reveal_strlit("NewContributorsDetail");
    reveal_strlit("new_contributors_detail");
    reveal_strlit("newcontributorsdetail");
    reveal_with_fuel(snake_prefix, 32);
    assert(snake_case("NewContributorsDetail"@) =~= "new_contributors_detail"@);
    assert(is_ascii_text("NewContributorsDetail"@));
    assert(lowercase("NewContributorsDetail"@) =~= "newcontributorsdetail"@);
}

/// The names of `InactiveContributors`.
proof fn lemma_names_of_inactive_contributors()
    ensures
        snake_case("InactiveContributors"@) == "inactive_contributors"@,
        is_snake_name("inactive_contributors"@),
        lowercase("InactiveContributors"@) == "inactivecontributors"@,
{
    reveal_strlit("InactiveContributors");
    reveal_strlit("inactive_contributors");
    reveal_strlit("inactivecontributors");
    reveal_with_fuel(snake_prefix, 32);
    assert(snake_case("InactiveContributors"@) =~= "inactive_contributors"@);
    assert(is_ascii_text("InactiveContributors"@));
    assert(lowercase("InactiveContributors"@) =~= "inactivecontributors"@);
}

/// The names of `BusFactor`.
proof fn lemma_names_of_bus_factor()
    ensures
        snake_case("BusFactor"@) == "bus_factor"@,
        is_snake_name("bus_factor"@),
        lowercase("BusFactor"@) == "busfactor"@,
{
    reveal_strlit("BusFactor");
    reveal_strlit("bus_factor");
    reveal_strlit("busfactor");
    reveal_with_fuel(snake_prefix, 32);
    assert(snake_case("BusFactor"@) =~= "bus_factor"@);
    assert(is_ascii_text("BusFactor"@));
    assert(lowercase("BusFactor"@) =~= "busfactor"@);
}

/// The names of `BusFactorDetail`.
proof fn lemma_names_of_bus_factor_detail()
    ensures
        snake_case("BusFactorDetail"@) == "bus_factor_detail"@,
        is_snake_name("bus_factor_detail"@),
        lowercase("BusFactorDetail"@) == "busfactordetail"@,
{
    reveal_strlit("BusFactorDetail");
    reveal_strlit("bus_factor_detail");
    reveal_strlit("busfactordetail");
    reveal_with_fuel(snake_prefix, 32);
    assert(snake_case("BusFactorDetail"@) =~= "bus_factor_detail"@);
    assert(is_ascii_text("BusFactorDetail"@));
    assert(lowercase("BusFactorDetail"@) =~= "busfactordetail"@);
}

/// The names of `IssuesNew`.
proof fn lemma_names_of_issues_new()
    ensures
        snake_case("IssuesNew"@) == "issues_new"@,
        is_snake_name("issues_new"@),
        lowercase("IssuesNew"@) == "issuesnew"@,
{
    reveal_strlit("IssuesNew");
    reveal_strlit("issues_new");
    reveal_strlit("issuesnew");
    reveal_with_fuel(snake_prefix, 32);
    assert(snake_case("IssuesNew"@) =~= "issues_new"@);
    assert(is_ascii_text("IssuesNew"@));
    assert(lowercase("IssuesNew"@) =~= "issuesnew"@);
}

/// The names of `IssuesClosed`.
proof fn lemma_names_of_issues_closed()
    ensures
        snake_case("IssuesClosed"@) == "issues_closed"@,
        is_snake_name("issues_closed"@),
        lowercase("IssuesClosed"@) == "issuesclosed"@,
{
    reveal_strlit("IssuesClosed");
    reveal_strlit("issues_closed");
    reveal_strlit("issuesclosed");
    reveal_with_fuel(snake_prefix, 32);
    assert(snake_case("IssuesClosed"@) =~= "issues_closed"@);
    assert(is_ascii_text("IssuesClosed"@));
    assert(lowercase("IssuesClosed"@) =~= "issuesclosed"@);
}

/// The names of `IssueComments`.
proof fn lemma_names_of_issue_comments()
    ensures
        snake_case("IssueComments"@) == "issue_comments"@,
        is_snake_name("issue_comments"@),
        lowercase("IssueComments"@) == "issuecomments"@,
{
    reveal_strlit("IssueComments");
    reveal_strlit("issue_comments");
    reveal_strlit("issuecomments");
    reveal_with_fuel(snake_prefix, 32);
    assert(snake_case("IssueComments"@) =~= "issue_comments"@);
    assert(is_ascii_text("IssueComments"@));
    assert(lowercase("IssueComments"@) =~= "issuecomments"@);
}

/// The names of `IssueResponseTime`.
proof fn lemma_names_of_issue_response_time()
    ensures
        snake_case("IssueResponseTime"@) == "issue_response_time"@,
        is_snake_name("issue_response_time"@),
        lowercase("IssueResponseTime"@) == "issueresponsetime"@,
{
    reveal_strlit("IssueResponseTime");
    reveal_strlit("issue_response_time");
    reveal_strlit("issueresponsetime");
    reveal_with_fuel(snake_prefix, 32);
    assert(snake_case("IssueResponseTime"@) =~= "issue_response_time"@);
    assert(is_ascii_text("IssueResponseTime"@));
    assert(lowercase("IssueResponseTime"@) =~= "issueresponsetime"@);
}

/// The names of `IssueResolutionDuration`.
proof fn lemma_names_of_issue_resolution_duration()
    ensures
        snake_case("IssueResolutionDuration"@) == "issue_resolution_duration"@,
        is_snake_name("issue_resolution_duration"@),
        lowercase("IssueResolutionDuration"@) == "issueresolutionduration"@,
{
    reveal_strlit("IssueResolutionDuration");
    reveal_strlit("issue_resolution_duration");
    reveal_strlit("issueresolutionduration");
    reveal_with_fuel(snake_prefix, 32);
    assert(snake_case("IssueResolutionDuration"@) =~= "issue_resolution_duration"@);
    assert(is_ascii_text("IssueResolutionDuration"@));
    assert(lowercase("IssueResolutionDuration"@) =~= "issueresolutionduration"@);
}

/// The names of `IssueAge`.
proof fn lemma_names_of_issue_age()
    ensures
        snake_case("IssueAge"@) == "issue_age"@,
        is_snake_name("issue_age"@),
        lowercase("IssueAge"@) == "issueage"@,
{
    reveal_strlit("IssueAge");
    reveal_strlit("issue_age");
    reveal_strlit("issueage");
    reveal_with_fuel(snake_prefix, 32);
    assert(snake_case("IssueAge"@) =~= "issue_age"@);
    assert(is_ascii_text("IssueAge"@));
    assert(lowercase("IssueAge"@) =~= "issueage"@);
}

/// The names of `CodeChangeLinesAdd`.
proof fn lemma_names_of_code_change_lines_add()
    ensures
        snake_case("CodeChangeLinesAdd"@) == "code_change_lines_add"@,
        is_snake_name("code_change_lines_add"@),
        lowercase("CodeChangeLinesAdd"@) == "codechangelinesadd"@,
{
    reveal_strlit("CodeChangeLinesAdd");
    reveal_strlit("code_change_lines_add");
    reveal_strlit("codechangelinesadd");
    reveal_with_fuel(snake_prefix, 32);
    assert(snake_case("CodeChangeLinesAdd"@) =~= "code_change_lines_add"@);
    assert(is_ascii_text("CodeChangeLinesAdd"@));
    assert(lowercase("CodeChangeLinesAdd"@) =~= "codechangelinesadd"@);
}

/// The names of `CodeChangeLinesRemove`.
proof fn lemma_names_of_code_change_lines_remove()
    ensures
        snake_case("CodeChangeLinesRemove"@) == "code_change_lines_remove"@,
        is_snake_name("code_change_lines_remove"@),
        lowercase("CodeChangeLinesRemove"@) == "codechangelinesremove"@,
{
    reveal_strlit("CodeChangeLinesRemove");
    reveal_strlit("code_change_lines_remove");
    reveal_strlit("codechangelinesremove");
    reveal_with_fuel(snake_prefix, 32);
    assert(snake_case("CodeChangeLinesRemove"@) =~= "code_change_lines_remove"@);
    assert(is_ascii_text("CodeChangeLinesRemove"@));
    assert(lowercase("CodeChangeLinesRemove"@) =~= "codechangelinesremove"@);
}

/// The names of `CodeChangeLinesSum`.
proof fn lemma_names_of_code_change_lines_sum()
    ensures
        snake_case("CodeChangeLinesSum"@) == "code_change_lines_sum"@,
        is_snake_name("code_change_lines_sum"@),
        lowercase("CodeChangeLinesSum"@) == "codechangelinessum"@,
{
    reveal_strlit("CodeChangeLinesSum");
    reveal_strlit("code_change_lines_sum");
    reveal_strlit("codechangelinessum");
    reveal_with_fuel(snake_prefix, 32);
    assert(snake_case("CodeChangeLinesSum"@) =~= "code_change_lines_sum"@);
    assert(is_ascii_text("CodeChangeLinesSum"@));
    assert(lowercase("CodeChangeLinesSum"@) =~= "codechangelinessum"@);
}

/// The names of `ChangeRequests`.
proof fn lemma_names_of_change_requests()
    ensures
        snake_case("ChangeRequests"@) == "change_requests"@,
        is_snake_name("change_requests"@),
        lowercase("ChangeRequests"@) == "changerequests"@,
{
    reveal_strlit("ChangeRequests");
    reveal_strlit("change_requests");
    reveal_strlit("changerequests");
    reveal_with_fuel(snake_prefix, 32);
    assert(snake_case("ChangeRequests"@) =~= "change_requests"@);
    assert(is_ascii_text("ChangeRequests"@));
    assert(lowercase("ChangeRequests"@) =~= "changerequests"@);
}

/// The names of `ChangeRequestsAccepted`.
proof fn lemma_names_of_change_requests_accepted()
    ensures
        snake_case("ChangeRequestsAccepted"@) == "change_requests_accepted"@,
        is_snake_name("change_requests_accepted"@),
        lowercase("ChangeRequestsAccepted"@) == "changerequestsaccepted"@,
{
    reveal_strlit("ChangeRequestsAccepted");
    reveal_strlit("change_requests_accepted");
    reveal_strlit("changerequestsaccepted");
    reveal_with_fuel(snake_prefix, 32);
    assert(snake_case("ChangeRequestsAccepted"@) =~= "change_requests_accepted"@);
    assert(is_ascii_text("ChangeRequestsAccepted"@));
    assert(lowercase("ChangeRequestsAccepted"@) =~= "changerequestsaccepted"@);
}

/// The names of `ChangeRequestsReviews`.
proof fn lemma_names_of_change_requests_reviews()
    ensures
        snake_case("ChangeRequestsReviews"@) == "change_requests_reviews"@,
        is_snake_name("change_requests_reviews"@),
        lowercase("ChangeRequestsReviews"@) == "changerequestsreviews"@,
{
    reveal_strlit("ChangeRequestsReviews");
    reveal_strlit("change_requests_reviews");
    reveal_strlit("changerequestsreviews");
    reveal_with_fuel(snake_prefix, 32);
    assert(snake_case("ChangeRequestsReviews"@) =~= "change_requests_reviews"@);
    assert(is_ascii_text("ChangeRequestsReviews"@));
    assert(lowercase("ChangeRequestsReviews"@) =~= "changerequestsreviews"@);
}

/// The names of `ChangeRequestResponseTime`.
proof fn lemma_names_of_change_request_response_time()
    ensures
        snake_case("ChangeRequestResponseTime"@) == "change_request_response_time"@,
        is_snake_name("change_request_response_time"@),
        lowercase("ChangeRequestResponseTime"@) == "changerequestresponsetime"@,
{
    reveal_strlit("ChangeRequestResponseTime");
    reveal_strlit("change_request_response_time");
    reveal_strlit("changerequestresponsetime");
    reveal_with_fuel(snake_prefix, 32);
    assert(snake_case("ChangeRequestResponseTime"@) =~= "change_request_response_time"@);
    assert(is_ascii_text("ChangeRequestResponseTime"@));
    assert(lowercase("ChangeRequestResponseTime"@) =~= "changerequestresponsetime"@);
}

/// The names of `ChangeRequestResolutionDuration`.
proof fn lemma_names_of_change_request_resolution_duration()
    ensures
        snake_case("ChangeRequestResolutionDuration"@) == "change_request_resolution_duration"@,
        is_snake_name("change_request_resolution_duration"@),
        lowercase("ChangeRequestResolutionDuration"@) == "changerequestresolutionduration"@,
{
    reveal_strlit("ChangeRequestResolutionDuration");
    reveal_strlit("change_request_resolution_duration");
    reveal_strlit("changerequestresolutionduration");
    reveal_with_fuel(snake_prefix, 32);
    assert(snake_case("ChangeRequestResolutionDuration"@)
        =~= "change_request_resolution_duration"@);
    assert(is_ascii_text("ChangeRequestResolutionDuration"@));
    assert(lowercase("ChangeRequestResolutionDuration"@) =~= "changerequestresolutionduration"@);
}

/// The names of `ChangeRequestAge`.
proof fn lemma_names_of_change_request_age()
    ensures
        snake_case("ChangeRequestAge"@) == "change_request_age"@,
        is_snake_name("change_request_age"@),
        lowercase("ChangeRequestAge"@) == "changerequestage"@,
{
    reveal_strlit("ChangeRequestAge");
    reveal_strlit("change_request_age");
    reveal_strlit("changerequestage");
    reveal_with_fuel(snake_prefix, 32);
    assert(snake_case("ChangeRequestAge"@) =~= "change_request_age"@);
    assert(is_ascii_text("ChangeRequestAge"@));
    assert(lowercase("ChangeRequestAge"@) =~= "changerequestage"@);
}

/// The names of `ActivityDetails`.
proof fn lemma_names_of_activity_details()
    ensures
        snake_case("ActivityDetails"@) == "activity_details"@,
        is_snake_name("activity_details"@),
        lowercase("ActivityDetails"@) == "activitydetails"@,
{
    reveal_strlit("ActivityDetails");
    reveal_strlit("activity_details");
    reveal_strlit("activitydetails");
    reveal_with_fuel(snake_prefix, 32);
    assert(snake_case("ActivityDetails"@) =~= "activity_details"@);
    assert(is_ascii_text("ActivityDetails"@));
    assert(lowercase("ActivityDetails"@) =~= "activitydetails"@);
}

/// The canonical name of every metric is the snake-case form of its
/// declared name, and is made of lowercase letters and underscores only.
pub proof fn lemma_canonical_name_is_snake_case(metric: Metric)
    ensures
        snake_case(metric.declared_name()) == metric.canonical_name(),
        is_snake_name(metric.canonical_name()),
{
    match metric {
        Metric::ActiveDatesAndTimes => lemma_names_of_active_dates_and_times(),
        Metric::Stars => lemma_names_of_stars(),
        Metric::TechnicalFork => lemma_names_of_technical_fork(),
        Metric::Participants => lemma_names_of_participants(),
        Metric::NewContributors => lemma_names_of_new_contributors(),
        Metric::NewContributorsDetail => lemma_names_of_new_contributors_detail(),
        Metric::InactiveContributors => lemma_names_of_inactive_contributors(),
        Metric::BusFactor => lemma_names_of_bus_factor(),
        Metric::BusFactorDetail => lemma_names_of_bus_factor_detail(),
        Metric::IssuesNew => lemma_names_of_issues_new(),
        Metric::IssuesClosed => lemma_names_of_issues_closed(),
        Metric::IssueComments => lemma_names_of_issue_comments(),
        Metric::IssueResponseTime => lemma_names_of_issue_response_time(),
        Metric::IssueResolutionDuration => lemma_names_of_issue_resolution_duration(),
        Metric::IssueAge => lemma_names_of_issue_age(),
        Metric::CodeChangeLinesAdd => lemma_names_of_code_change_lines_add(),
        Metric::CodeChangeLinesRemove => lemma_names_of_code_change_lines_remove(),
        Metric::CodeChangeLinesSum => lemma_names_of_code_change_lines_sum(),
        Metric::ChangeRequests => lemma_names_of_change_requests(),
        Metric::ChangeRequestsAccepted => lemma_names_of_change_requests_accepted(),
        Metric::ChangeRequestsReviews => lemma_names_of_change_requests_reviews(),
        Metric::ChangeRequestResponseTime => lemma_names_of_change_request_response_time(),
        Metric::ChangeRequestResolutionDuration => {
            lemma_names_of_change_request_resolution_duration()
        },
        Metric::ChangeRequestAge => lemma_names_of_change_request_age(),
        Metric::ActivityDetails => lemma_names_of_activity_details(),
    }
}

/// Lowering the declared name of a metric gives its lowercase name.
pub proof fn lemma_lowercase_name(metric: Metric)
    ensures
        lowercase(metric.declared_name()) == metric.lowercase_name(),
{
    match metric {
        Metric::ActiveDatesAndTimes => lemma_names_of_active_dates_and_times(),
        Metric::Stars => lemma_names_of_stars(),
        Metric::TechnicalFork => lemma_names_of_technical_fork(),
        Metric::Participants => lemma_names_of_participants(),
        Metric::NewContributors => lemma_names_of_new_contributors(),
        Metric::NewContributorsDetail => lemma_names_of_new_contributors_detail(),
        Metric::InactiveContributors => lemma_names_of_inactive_contributors(),
        Metric::BusFactor => lemma_names_of_bus_factor(),
        Metric::BusFactorDetail => lemma_names_of_bus_factor_detail(),
        Metric::IssuesNew => lemma_names_of_issues_new(),
        Metric::IssuesClosed => lemma_names_of_issues_closed(),
        Metric::IssueComments => lemma_names_of_issue_comments(),
        Metric::IssueResponseTime => lemma_names_of_issue_response_time(),
        Metric::IssueResolutionDuration => lemma_names_of_issue_resolution_duration(),
        Metric::IssueAge => lemma_names_of_issue_age(),
        Metric::CodeChangeLinesAdd => lemma_names_of_code_change_lines_add(),
        Metric::CodeChangeLinesRemove => lemma_names_of_code_change_lines_remove(),
        Metric::CodeChangeLinesSum => lemma_names_of_code_change_lines_sum(),
        Metric::ChangeRequests => lemma_names_of_change_requests(),
        Metric::ChangeRequestsAccepted => lemma_names_of_change_requests_accepted(),
        Metric::ChangeRequestsReviews => lemma_names_of_change_requests_reviews(),
        Metric::ChangeRequestResponseTime => lemma_names_of_change_request_response_time(),
        Metric::ChangeRequestResolutionDuration => {
            lemma_names_of_change_request_resolution_duration()
        },
        Metric::ChangeRequestAge => lemma_names_of_change_request_age(),
        Metric::ActivityDetails => lemma_names_of_activity_details(),
    }
}

/// What tells the lowercase names apart: the length of a name, its first two
/// characters and, for the names that need it, its sixteenth character.
spec fn marks(metric: Metric) -> (nat, char, char, Option<char>) {
    match metric {
        Metric::ActiveDatesAndTimes => (19, 'a', 'c', None),
        Metric::Stars => (5, 's', 't', None),
        Metric::TechnicalFork => (13, 't', 'e', None),
        Metric::Participants => (12, 'p', 'a', None),
        Metric::NewContributors => (15, 'n', 'e', None),
        Metric::NewContributorsDetail => (21, 'n', 'e', None),
        Metric::InactiveContributors => (20, 'i', 'n', None),
        Metric::BusFactor => (9, 'b', 'u', None),
        Metric::BusFactorDetail => (15, 'b', 'u', None),
        Metric::IssuesNew => (9, 'i', 's', None),
        Metric::IssuesClosed => (12, 'i', 's', None),
        Metric::IssueComments => (13, 'i', 's', None),
        Metric::IssueResponseTime => (17, 'i', 's', None),
        Metric::IssueResolutionDuration => (23, 'i', 's', None),
        Metric::IssueAge => (8, 'i', 's', None),
        Metric::CodeChangeLinesAdd => (18, 'c', 'o', Some('a')),
        Metric::CodeChangeLinesRemove => (21, 'c', 'o', None),
        Metric::CodeChangeLinesSum => (18, 'c', 'o', Some('s')),
        Metric::ChangeRequests => (14, 'c', 'h', None),
        Metric::ChangeRequestsAccepted => (22, 'c', 'h', None),
        Metric::ChangeRequestsReviews => (21, 'c', 'h', None),
        Metric::ChangeRequestResponseTime => (25, 'c', 'h', None),
        Metric::ChangeRequestResolutionDuration => (31, 'c', 'h', None),
        Metric::ChangeRequestAge => (16, 'c', 'h', None),
        Metric::ActivityDetails => (15, 'a', 'c', None),
    }
}

/// Whether `name` carries these marks.
spec fn has_marks(name: Seq<char>, marks: (nat, char, char, Option<char>)) -> bool {
    &&& name.len() == marks.0
    &&& name[0] == marks.1
    &&& name[1] == marks.2
    &&& marks.3 matches Some(c) ==> name[15] == c
}

/// The lowercase name of every metric carries the marks of that metric.
proof fn lemma_lowercase_name_marks(metric: Metric)
    ensures
        has_marks(metric.lowercase_name(), marks(metric)),
{
    match metric {
        Metric::ActiveDatesAndTimes => reveal_strlit("activedatesandtimes"),
        Metric::Stars => reveal_strlit("stars"),
        Metric::TechnicalFork => reveal_strlit("technicalfork"),
        Metric::Participants => reveal_strlit("participants"),
        Metric::NewContributors => reveal_strlit("newcontributors"),
        Metric::NewContributorsDetail => reveal_strlit("newcontributorsdetail"),
        Metric::InactiveContributors => reveal_strlit("inactivecontributors"),
        Metric::BusFactor => reveal_strlit("busfactor"),
        Metric::BusFactorDetail => reveal_strlit("busfactordetail"),
        Metric::IssuesNew => reveal_strlit("issuesnew"),
        Metric::IssuesClosed => reveal_strlit("issuesclosed"),
        Metric::IssueComments => reveal_strlit("issuecomments"),
        Metric::IssueResponseTime => reveal_strlit("issueresponsetime"),
        Metric::IssueResolutionDuration => reveal_strlit("issueresolutionduration"),
        Metric::IssueAge => reveal_strlit("issueage"),
        Metric::CodeChangeLinesAdd => reveal_strlit("codechangelinesadd"),
        Metric::CodeChangeLinesRemove => reveal_strlit("codechangelinesremove"),
        Metric::CodeChangeLinesSum => reveal_strlit("codechangelinessum"),
        Metric::ChangeRequests => reveal_strlit("changerequests"),
        Metric::ChangeRequestsAccepted => reveal_strlit("changerequestsaccepted"),
        Metric::ChangeRequestsReviews => reveal_strlit("changerequestsreviews"),
        Metric::ChangeRequestResponseTime => reveal_strlit("changerequestresponsetime"),
        Metric::ChangeRequestResolutionDuration => {
            reveal_strlit("changerequestresolutionduration")
        },
        Metric::ChangeRequestAge => reveal_strlit("changerequestage"),
        Metric::ActivityDetails => reveal_strlit("activitydetails"),
    }
}

/// Two different metrics never share a name, even when letter case is
/// ignored.
pub proof fn lemma_names_are_distinct(first: Metric, second: Metric)
    requires
        first != second,
    ensures
        lowercase(first.declared_name()) != lowercase(second.declared_name()),
{
    lemma_lowercase_name(first);
    lemma_lowercase_name(second);
    lemma_lowercase_name_marks(first);
    lemma_lowercase_name_marks(second);
}

/// Every metric stands in the catalog at its position.
pub proof fn lemma_catalog_is_complete(metric: Metric)
    ensures
        metric.position() < Metric::catalog().len(),
        Metric::catalog()[metric.position() as int] == metric,
{
}

/// What the search from `from` finds: a metric at or after `from` that
/// `text` names, or nothing where no metric from there on is named by it.
proof fn lemma_first_named_by(text: Seq<char>, from: nat)
    ensures
        match Metric::first_named_by(text, from) {
            Some(metric) => metric.is_named_by(text) && from <= metric.position(),
            None => forall|k: int|
                from <= k < Metric::catalog().len() ==> !(#[trigger] Metric::catalog()[
                    k
                ]).is_named_by(text),
        },
    decreases Metric::catalog().len() - from,
{
    if from < Metric::catalog().len() {
        lemma_first_named_by(text, from + 1);
        if Metric::catalog()[from as int].is_named_by(text) {
            lemma_catalog_position(from as int);
        }
    }
}

/// The metric at position `k` of the catalog has the position `k`.
proof fn lemma_catalog_position(k: int)
    requires
        0 <= k < Metric::catalog().len(),
    ensures
        Metric::catalog()[k].position() == k,
{
}

/// A text names at most one metric, and the search finds exactly that one:
/// a metric is found for a text if and only if the text is its declared name
/// up to letter case.
pub proof fn lemma_named_by_finds_the_named(text: Seq<char>, metric: Metric)
    ensures
        Metric::named_by(text) == Some(metric) <==> metric.is_named_by(text),
{
    lemma_first_named_by(text, 0);
    lemma_catalog_is_complete(metric);
    if metric.is_named_by(text) {
        let found = Metric::named_by(text)->0;
        if found != metric {
            lemma_names_are_distinct(found, metric);
        }
    }
}

/// Every metric is found under its own declared name.
pub proof fn lemma_declared_name_is_found(metric: Metric)
    ensures
        Metric::named_by(metric.declared_name()) == Some(metric),
{
    lemma_named_by_finds_the_named(metric.declared_name(), metric);
}

} // verus!

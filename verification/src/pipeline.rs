//! The order in which an upload is made: log in, fetch the term, fetch the
//! app version, fetch the quota, upload. The pipeline decides what to send
//! next from what came back; the caller sends it and hands back the reply.
//! The first failure ends the pipeline and is passed on as it came.

use crate::account::document_text;
use crate::account::share_of;
use crate::account::Account;
use crate::account::LoginData;
use crate::account::LoginRequest;
use crate::account::UploadRequest;
use crate::clock::timestamp_text;
use crate::digest::digest_text;
use crate::digest::login_message;
use crate::error::AccountError;
use crate::quota::Quota;
use crate::quota::RunningLimits;
use crate::session::Draws;
use crate::session::SessionParameters;
use vstd::prelude::*;

verus! {

/// Where a pipeline stands: the reply it waits for, or how it ended.
#[derive(Clone, Copy, Debug, PartialEq, Eq, Structural)]
pub enum Stage {
    /// Waits for the answer to the login.
    Login,
    /// Waits for the active term.
    Term,
    /// Waits for the app version.
    Version,
    /// Waits for the quota.
    Limits,
    /// Waits for the upload to be accepted.
    Upload,
    /// The upload was accepted.
    Done,
    /// A step failed.
    Failed,
}

/// What came back from the service.
#[derive(Clone, Debug, PartialEq, Eq)]
pub enum Reply {
    /// The answer to the login.
    LoggedIn(LoginData),
    /// The identifier of the active term.
    Term(String),
    /// The app version that the service advertises.
    Version(String),
    /// The quota as reported.
    Limits(RunningLimits),
    /// The upload was accepted.
    Uploaded,
    /// The request failed.
    Failed(AccountError),
}

/// What to send to the service.
#[derive(Clone, Debug, PartialEq, Eq)]
pub enum Request {
    /// The login request.
    Login(LoginRequest),
    /// The query for the active term.
    Term,
    /// The query for the app version.
    Version,
    /// The query for the quota of a term.
    Limits { semester: String },
    /// The upload request.
    Upload(UploadRequest),
}

/// What the caller of a pipeline does next.
#[derive(Clone, Debug, PartialEq, Eq)]
pub enum Step {
    /// Send the request and hand back the reply.
    Send(Request),
    /// Nothing: the upload was accepted.
    Finished,
    /// Nothing: the pipeline failed with this error.
    Failed(AccountError),
}

/// One upload for one account, from login to acceptance.
#[derive(Clone, Debug, PartialEq, Eq)]
pub struct Pipeline {
    /// The account that the upload is made for.
    pub account: Account,
    /// Where the pipeline stands.
    pub stage: Stage,
    /// The share of the remaining quota to upload, in hundredths.
    pub percent: u8,
    /// When the session is to end, in seconds since the epoch.
    pub end_time: i64,
    /// The route document to upload in place of a synthesized route.
    pub document: Option<String>,
}

/// The error of a reply that does not answer the request last sent.
pub open spec fn out_of_turn() -> AccountError {
    AccountError::ProtocolError { status: 0 }
}

impl Pipeline {
    /// The account of the pipeline is well-formed.
    pub open spec fn wf(&self) -> bool {
        self.account.wf()
    }

    /// The pipeline has ended.
    pub open spec fn ended(&self) -> bool {
        self.stage == Stage::Done || self.stage == Stage::Failed
    }

    /// Whether the pipeline has ended.
    pub fn has_ended(&self) -> (r: bool)
        ensures
            r == self.ended(),
    {
        match self.stage {
            Stage::Done => true,
            Stage::Failed => true,
            _ => false,
        }
    }

    /// `step` sends the upload that the account of `self` makes for its
    /// share of the remaining quota with the given draws, or fails with what
    /// stops that upload.
    pub open spec fn uploads(&self, draws: Draws, step: Step) -> bool {
        let mileage = share_of(self.account.quota.remaining(), self.percent as int);
        match self.account.upload_fault(
            mileage,
            self.end_time as int,
            draws,
            document_text(self.document),
        ) {
            Some(e) => step == Step::Failed(e),
            None => step matches Step::Send(Request::Upload(request)) && request.reports(
                self.account,
                SessionParameters::derived(mileage, self.end_time as int, draws),
                timestamp_text(self.end_time - request.keep_time).unwrap(),
                timestamp_text(self.end_time as int).unwrap(),
            ) && request.routed(
                SessionParameters::derived(mileage, self.end_time as int, draws),
                document_text(self.document),
            ),
        }
    }

    /// `after` and `step` are what `before` comes to on `reply`, with the
    /// given draws for the upload.
    pub open spec fn follows(
        before: Pipeline,
        reply: Reply,
        draws: Draws,
        after: Pipeline,
        step: Step,
    ) -> bool {
        &&& after.percent == before.percent
        &&& after.end_time == before.end_time
        &&& after.document == before.document
        &&& match (before.stage, reply) {
            (Stage::Done, _) | (Stage::Failed, _) => {
                &&& after.account == before.account
                &&& after.stage == Stage::Failed
                &&& step == Step::Failed(out_of_turn())
            },
            (_, Reply::Failed(e)) => {
                &&& after.account == before.account
                &&& after.stage == Stage::Failed
                &&& step == Step::Failed(e)
            },
            (Stage::Login, Reply::LoggedIn(data)) => {
                &&& after.account == (Account {
                    id: data.id,
                    token: data.access_token,
                    organization: data.campus_id,
                    ..before.account
                })
                &&& after.stage == Stage::Term
                &&& step == Step::Send(Request::Term)
            },
            (Stage::Term, Reply::Term(term)) => {
                &&& after.account == (Account { semester: term, ..before.account })
                &&& after.stage == Stage::Version
                &&& step == Step::Send(Request::Version)
            },
            (Stage::Version, Reply::Version(version)) => {
                &&& after.account == (Account { version, ..before.account })
                &&& after.stage == Stage::Limits
                &&& step matches Step::Send(Request::Limits { semester })
                &&& semester == before.account.semester
            },
            (Stage::Limits, Reply::Limits(limits)) => {
                if !limits.complete() {
                    &&& after.account == before.account
                    &&& after.stage == Stage::Failed
                    &&& step == Step::Failed(AccountError::QuotaUnavailable)
                } else if limits.fault().is_some() {
                    &&& after.account == before.account
                    &&& after.stage == Stage::Failed
                    &&& step == Step::Failed(
                        AccountError::NumericParseError { field: limits.fault().unwrap() },
                    )
                } else {
                    &&& after.account.quota.wf()
                    &&& after.account.quota.holds(limits)
                    &&& (Account { quota: before.account.quota, ..after.account })
                        == before.account
                    &&& after.uploads(draws, step)
                    &&& after.stage == if step is Failed {
                        Stage::Failed
                    } else {
                        Stage::Upload
                    }
                }
            },
            (Stage::Upload, Reply::Uploaded) => {
                &&& after.account == before.account
                &&& after.stage == Stage::Done
                &&& step == Step::Finished
            },
            _ => {
                &&& after.account == before.account
                &&& after.stage == Stage::Failed
                &&& step == Step::Failed(out_of_turn())
            },
        }
    }

    /// Starts the pipeline for an account: the first thing to send is its
    /// login request.
    pub fn start(account: Account, percent: u8, end_time: i64, document: Option<String>) -> (r: (
        Pipeline,
        Request,
    ))
        ensures
            r.0.account == account,
            r.0.stage == Stage::Login,
            r.0.percent == percent,
            r.0.end_time == end_time,
            r.0.document == document,
            r.1 matches Request::Login(login) && login.entrance@ == seq!['1'] && login.password@
                == account.password@ && login.user_name@ == account.username@
                && login.sign_digital@ == digest_text(
                login_message(account.username@, account.password@),
            ),
    {
        let login = account.login();
        (Pipeline { account, stage: Stage::Login, percent, end_time, document }, Request::Login(login))
    }

    fn fail(&mut self, e: AccountError) -> (r: Step)
        ensures
            *final(self) == (Pipeline { stage: Stage::Failed, ..*old(self) }),
            r == Step::Failed(e),
    {
        self.stage = Stage::Failed;
        Step::Failed(e)
    }

    /// Takes in a reply and says what to do next, with the given draws for
    /// the upload.
    pub fn advance_with(&mut self, reply: Reply, draws: Draws) -> (r: Step)
        requires
            old(self).wf(),
            draws.valid(),
        ensures
            final(self).wf(),
            Self::follows(*old(self), reply, draws, *final(self), r),
    {
        if self.has_ended() {
            return self.fail(AccountError::ProtocolError { status: 0 });
        }
        match reply {
            Reply::Failed(e) => self.fail(e),
            Reply::LoggedIn(data) => match self.stage {
                Stage::Login => {
                    self.account.logged_in(data);
                    self.stage = Stage::Term;
                    Step::Send(Request::Term)
                },
                _ => self.fail(AccountError::ProtocolError { status: 0 }),
            },
            Reply::Term(term) => match self.stage {
                Stage::Term => {
                    self.account.semester = term;
                    self.stage = Stage::Version;
                    Step::Send(Request::Version)
                },
                _ => self.fail(AccountError::ProtocolError { status: 0 }),
            },
            Reply::Version(version) => match self.stage {
                Stage::Version => {
                    self.account.set_version(version);
                    self.stage = Stage::Limits;
                    Step::Send(Request::Limits { semester: self.account.semester.clone() })
                },
                _ => self.fail(AccountError::ProtocolError { status: 0 }),
            },
            Reply::Limits(limits) => match self.stage {
                Stage::Limits => match Quota::resolve(limits) {
                    Err(e) => self.fail(e),
                    Ok(quota) => {
                        self.account.quota = quota;
                        let mileage = self.account.target_mileage(self.percent);
                        let document = match &self.document {
                            Some(text) => Some(text.clone()),
                            None => None,
                        };
                        match self.account.upload_running_with(
                            mileage,
                            self.end_time,
                            draws,
                            document,
                        ) {
                            Err(e) => self.fail(e),
                            Ok(request) => {
                                self.stage = Stage::Upload;
                                Step::Send(Request::Upload(request))
                            },
                        }
                    },
                },
                _ => self.fail(AccountError::ProtocolError { status: 0 }),
            },
            Reply::Uploaded => match self.stage {
                Stage::Upload => {
                    self.stage = Stage::Done;
                    Step::Finished
                },
                _ => self.fail(AccountError::ProtocolError { status: 0 }),
            },
        }
    }

    /// Takes in a reply and says what to do next, drawing afresh for the
    /// upload. Whatever was drawn, the outcome is the one that
    /// `advance_with` gives for those draws.
    pub fn advance(&mut self, reply: Reply) -> (r: Step)
        requires
            old(self).wf(),
        ensures
            final(self).wf(),
            exists|draws: Draws|
                draws.valid() && #[trigger] Self::follows(
                    *old(self),
                    reply,
                    draws,
                    *final(self),
                    r,
                ),
    {
        let draws = Draws::draw();
        self.advance_with(reply, draws)
    }
}

} // verus!

//! An account of the mileage service: its identity, its quota, and the
//! requests that log it in and upload a session for it.
//!
//! The functions here compute what is sent and take in what came back; the
//! caller does the sending.

use crate::clock::format_timestamp;
use crate::clock::timestamp_text;
use crate::digest::digest_text;
use crate::digest::login_digest;
use crate::digest::login_message;
use crate::digest::upload_digest;
use crate::digest::upload_message;
use crate::error::AccountError;
use crate::quota::Quota;
use crate::quota::RunningLimits;
use crate::route::json_well_formed;
use crate::route::supplied_route;
use crate::route::synthesize;
use crate::route::synthetic_route;
use crate::route::RouteGeometry;
use crate::route::RoutePoint;
use crate::session::ave_pace_of;
use crate::session::calorie_of;
use crate::session::pace_number_of;
use crate::session::trunc_div;
use crate::session::Draws;
use crate::session::SessionParameters;
use crate::session::TIME_LIMIT;
use vstd::prelude::*;

verus! {

/// The device that an upload claims to come from.
pub const DEVICE_TYPE: &'static str = "iPhone 13 Pro";

/// The system version that an upload claims to come from.
pub const SYSTEM_VERSION: &'static str = "16.0.2";

/// The label of the activity that an upload reports.
pub const ACTIVITY_KIND: &'static str = "范围跑";

/// What precedes the token in the authorization header.
pub const BEARER: &'static str = "Bearer ";

/// An account of the mileage service.
#[derive(Clone, Debug, PartialEq, Eq)]
pub struct Account {
    /// The name that the user logs in with.
    pub username: String,
    /// The password that the user logs in with.
    pub password: String,
    /// The identifier of the user.
    pub id: String,
    /// The identifier of the user's organization.
    pub organization: String,
    /// The bearer token of the session with the service.
    pub token: String,
    /// The version of the app that the service advertises.
    pub version: String,
    /// The identifier of the active term.
    pub semester: String,
    /// The quota of the user in the active term.
    pub quota: Quota,
}

/// The body of a login request.
#[derive(Clone, Debug, PartialEq, Eq)]
pub struct LoginRequest {
    /// The entrance marker, always `1`.
    pub entrance: String,
    /// The password.
    pub password: String,
    /// The login digest.
    pub sign_digital: String,
    /// The user name.
    pub user_name: String,
}

/// What the service answers to a login.
#[derive(Clone, Debug, PartialEq, Eq)]
pub struct LoginData {
    /// The identifier of the user.
    pub id: String,
    /// The bearer token.
    pub access_token: String,
    /// The identifier of the user's organization.
    pub campus_id: String,
}

/// The body of an upload request. Mileages and the pace are in steps.
#[derive(Clone, Debug, PartialEq, Eq)]
pub struct UploadRequest {
    /// The version of the app that the service advertises.
    pub app_version: String,
    /// The average pace.
    pub ave_pace: i64,
    /// The calorie estimate.
    pub calorie: i64,
    /// The device that the upload claims to come from.
    pub device_type: String,
    /// The session mileage.
    pub effective_mileage: i64,
    /// The number of effective parts, always one.
    pub effective_part: i64,
    /// The end of the session, as calendar text.
    pub end_time: String,
    /// The session mileage.
    pub gps_mileage: i64,
    /// The duration of the session, in seconds.
    pub keep_time: i64,
    /// The identifier of the goal that the quota belongs to.
    pub limitation: String,
    /// The pace number.
    pub pace_number: i64,
    /// The pace of the session.
    pub pace_range: i64,
    /// The route of the session.
    pub route: RouteGeometry,
    /// The code of the scoring mode.
    pub scoring_type: i64,
    /// The identifier of the active term.
    pub semester_id: String,
    /// The upload digest.
    pub sign_digital: String,
    /// The points at which the session was signed; always none.
    pub sign_point: Vec<RoutePoint>,
    /// The start of the session, as calendar text.
    pub start_time: String,
    /// The system version that the upload claims to come from.
    pub system_version: String,
    /// The session mileage.
    pub total_mileage: i64,
    /// The number of parts, always one.
    pub total_part: i64,
    /// The label of the activity.
    pub kind: String,
    /// Why the session would not count; always empty.
    pub uneffective_reason: String,
}

impl UploadRequest {
    /// The request reports the given session for the given account, with
    /// the given calendar texts, signed over its own fields.
    pub open spec fn reports(
        &self,
        account: Account,
        session: SessionParameters,
        start_text: Seq<char>,
        end_text: Seq<char>,
    ) -> bool {
        &&& self.app_version@ == account.version@
        &&& self.ave_pace == ave_pace_of(session.mileage as int, session.keep_time as int)
        &&& self.calorie == calorie_of(session.mileage as int)
        &&& self.device_type@ == DEVICE_TYPE@
        &&& self.effective_mileage == session.mileage
        &&& self.effective_part == 1
        &&& self.end_time@ == end_text
        &&& self.gps_mileage == session.mileage
        &&& self.keep_time == session.keep_time
        &&& self.limitation@ == account.quota.limitation@
        &&& self.pace_number == pace_number_of(session.mileage as int, session.pace as int)
        &&& self.pace_range == session.pace
        &&& self.scoring_type == account.quota.scoring
        &&& self.semester_id@ == account.semester@
        &&& self.sign_digital@ == digest_text(
            upload_message(
                session.mileage as int,
                start_text,
                self.calorie as int,
                self.ave_pace as int,
                session.keep_time as int,
                self.pace_number as int,
            ),
        )
        &&& self.sign_point@.len() == 0
        &&& self.start_time@ == start_text
        &&& self.system_version@ == SYSTEM_VERSION@
        &&& self.total_mileage == session.mileage
        &&& self.total_part == 1
        &&& self.kind@ == ACTIVITY_KIND@
        &&& self.uneffective_reason@ == Seq::<char>::empty()
    }

    /// The route of the request is the supplied document where there is
    /// one, and else the route synthesized for the session.
    pub open spec fn routed(
        &self,
        session: SessionParameters,
        document: Option<Seq<char>>,
    ) -> bool {
        match document {
            Some(text) => self.route matches RouteGeometry::Supplied(held) && held@ == text,
            None => self.route matches RouteGeometry::Synthesized(points) && points@
                == synthetic_route(
                session.mileage as int,
                session.start_time as int,
                session.keep_time as int,
            ),
        }
    }
}

/// The given hundredths of a mileage, rounded toward zero.
pub open spec fn share_of(mileage: int, percent: int) -> int {
    trunc_div(mileage * percent, 100)
}

/// The view of an optional document.
pub open spec fn document_text(document: Option<String>) -> Option<Seq<char>> {
    match document {
        Some(text) => Some(text@),
        None => None,
    }
}

impl Default for Account {
    fn default() -> (r: Account)
        ensures
            r.blank(),
            r.username@ == Seq::<char>::empty(),
            r.password@ == Seq::<char>::empty(),
    {
        Account {
            username: String::new(),
            password: String::new(),
            id: String::new(),
            organization: String::new(),
            token: String::new(),
            version: String::new(),
            semester: String::new(),
            quota: Quota::empty(),
        }
    }
}

impl Account {
    /// The quota of the account is well-formed.
    pub open spec fn wf(&self) -> bool {
        self.quota.wf()
    }

    /// Nothing but the credentials is set: no identity from the service, and
    /// a quota of zeros.
    pub open spec fn blank(&self) -> bool {
        &&& self.wf()
        &&& self.id@ == Seq::<char>::empty()
        &&& self.organization@ == Seq::<char>::empty()
        &&& self.token@ == Seq::<char>::empty()
        &&& self.version@ == Seq::<char>::empty()
        &&& self.semester@ == Seq::<char>::empty()
        &&& self.quota.daily == 0 && self.quota.day == 0
        &&& self.quota.weekly == 0 && self.quota.week == 0
        &&& self.quota.start == 0 && self.quota.end == 0
        &&& self.quota.scoring == 0
        &&& self.quota.limitation@ == Seq::<char>::empty()
    }

    /// A fresh account with the given credentials.
    pub fn new(username: String, password: String) -> (r: Account)
        ensures
            r.blank(),
            r.username == username,
            r.password == password,
    {
        let mut account = Account::default();
        account.profile(username, password);
        account
    }

    /// Sets the credentials of the account and leaves the rest as it is.
    pub fn profile(&mut self, username: String, password: String) -> (r: &mut Account)
        ensures
            *r == (Account { username, password, ..*old(self) }),
            *final(self) == *final(r),
    {
        self.username = username;
        self.password = password;
        self
    }

    /// The login request of the account: its credentials, signed.
    pub fn login(&self) -> (r: LoginRequest)
        ensures
            r.entrance@ == seq!['1'],
            r.password@ == self.password@,
            r.sign_digital@ == digest_text(login_message(self.username@, self.password@)),
            r.user_name@ == self.username@,
    {
        proof {
            reveal_strlit("1");
        }
        let entrance = String::from_str("1");
        assert(entrance@ =~= seq!['1']);
        LoginRequest {
            entrance,
            password: self.password.clone(),
            sign_digital: login_digest(self.username.as_str(), self.password.as_str()),
            user_name: self.username.clone(),
        }
    }

    /// Takes in what the service answered to the login: the identity of the
    /// user, the token and the organization.
    pub fn logged_in(&mut self, data: LoginData)
        ensures
            *final(self) == (Account {
                id: data.id,
                token: data.access_token,
                organization: data.campus_id,
                ..*old(self)
            }),
    {
        self.id = data.id;
        self.token = data.access_token;
        self.organization = data.campus_id;
    }

    /// Takes in the app version that the service advertises.
    pub fn set_version(&mut self, version: String)
        ensures
            *final(self) == (Account { version, ..*old(self) }),
    {
        self.version = version;
    }

    /// The value of the authorization header: the bearer token.
    pub fn authorization(&self) -> (r: String)
        ensures
            r@ == BEARER@ + self.token@,
    {
        let mut out = String::from_str(BEARER);
        out.append(self.token.as_str());
        out
    }

    /// Takes in the state that the service reported: the active term, and
    /// the quota resolved from the limits. The term is taken in whatever the
    /// limits hold; the quota changes only if the limits resolve.
    pub fn get_state(&mut self, term: String, limits: RunningLimits) -> (r: Result<
        (),
        AccountError,
    >)
        requires
            old(self).wf(),
        ensures
            final(self).wf(),
            final(self).semester == term,
            final(self).username == old(self).username,
            final(self).password == old(self).password,
            final(self).id == old(self).id,
            final(self).organization == old(self).organization,
            final(self).token == old(self).token,
            final(self).version == old(self).version,
            r.is_ok() <==> limits.complete() && limits.fault().is_none(),
            r.is_ok() ==> final(self).quota.holds(limits),
            r.is_err() ==> final(self).quota == old(self).quota,
            !limits.complete() ==> r == Err::<(), AccountError>(AccountError::QuotaUnavailable),
            limits.complete() && limits.fault().is_some() ==> r == Err::<(), AccountError>(
                AccountError::NumericParseError { field: limits.fault().unwrap() },
            ),
    {
        self.semester = term;
        match Quota::resolve(limits) {
            Ok(quota) => {
                self.quota = quota;
                Ok(())
            },
            Err(e) => Err(e),
        }
    }

    /// What stops the upload of a session of the requested mileage that is
    /// to end at `end_time`, with the given draws and route document, or
    /// nothing if the upload can be made. In order: the route document is
    /// malformed; the requested mileage lies outside the accepted range; the
    /// end time is beyond the limit; the session covers no positive mileage
    /// or lasts a negative time; its start or end lies outside the calendar.
    pub open spec fn upload_fault(
        &self,
        mileage: int,
        end_time: int,
        draws: Draws,
        document: Option<Seq<char>>,
    ) -> Option<AccountError> {
        let session = SessionParameters::derived(mileage, end_time, draws);
        if document.is_some() && !json_well_formed(document.unwrap()) {
            Some(AccountError::RouteSynthesisError)
        } else if let Err(e) = self.quota.verdict(mileage) {
            Some(e)
        } else if !(-TIME_LIMIT <= end_time <= TIME_LIMIT) {
            Some(AccountError::TimestampOutOfRange)
        } else if !session.runnable() {
            Some(AccountError::RouteSynthesisError)
        } else if timestamp_text(session.start_time as int).is_none() || timestamp_text(
            end_time,
        ).is_none() {
            Some(AccountError::TimestampOutOfRange)
        } else {
            None
        }
    }

    /// Prepares the upload of a session of the requested mileage that is to
    /// end at `end_time`, shaped by the given draws. With a route document
    /// the route is that document, else it is synthesized.
    pub fn upload_running_with(
        &self,
        mileage: i64,
        end_time: i64,
        draws: Draws,
        document: Option<String>,
    ) -> (r: Result<UploadRequest, AccountError>)
        requires
            self.wf(),
            draws.valid(),
        ensures
            match self.upload_fault(mileage as int, end_time as int, draws, document_text(document)) {
                Some(e) => r == Err::<UploadRequest, AccountError>(e),
                None => r matches Ok(request) && request.reports(
                    *self,
                    SessionParameters::derived(mileage as int, end_time as int, draws),
                    timestamp_text(end_time - request.keep_time).unwrap(),
                    timestamp_text(end_time as int).unwrap(),
                ) && request.routed(
                    SessionParameters::derived(mileage as int, end_time as int, draws),
                    document_text(document),
                ),
            },
    {
        let supplied = match document {
            Some(text) => match supplied_route(text) {
                Ok(route) => Some(route),
                Err(e) => {
                    return Err(e);
                },
            },
            None => None,
        };
        match self.quota.check_mileage(mileage) {
            Err(e) => {
                return Err(e);
            },
            Ok(()) => {},
        }
        if !SessionParameters::can_derive(mileage, end_time) {
            return Err(AccountError::TimestampOutOfRange);
        }
        let session = SessionParameters::derive(mileage, end_time, draws);
        if !session.is_runnable() {
            return Err(AccountError::RouteSynthesisError);
        }
        let start_time = match format_timestamp(session.start_time) {
            Some(text) => text,
            None => {
                return Err(AccountError::TimestampOutOfRange);
            },
        };
        let end_text = match format_timestamp(end_time) {
            Some(text) => text,
            None => {
                return Err(AccountError::TimestampOutOfRange);
            },
        };
        let route = match supplied {
            Some(route) => route,
            None => RouteGeometry::Synthesized(
                synthesize(session.mileage, session.start_time, session.keep_time),
            ),
        };
        let calorie = session.calorie();
        let ave_pace = session.ave_pace();
        let pace_number = session.pace_number();
        let sign_digital = upload_digest(
            session.mileage,
            start_time.as_str(),
            calorie,
            ave_pace,
            session.keep_time,
            pace_number,
        );
        Ok(
            UploadRequest {
                app_version: self.version.clone(),
                ave_pace,
                calorie,
                device_type: String::from_str(DEVICE_TYPE),
                effective_mileage: session.mileage,
                effective_part: 1,
                end_time: end_text,
                gps_mileage: session.mileage,
                keep_time: session.keep_time,
                limitation: self.quota.limitation.clone(),
                pace_number,
                pace_range: session.pace,
                route,
                scoring_type: self.quota.scoring,
                semester_id: self.semester.clone(),
                sign_digital,
                sign_point: Vec::new(),
                start_time,
                system_version: String::from_str(SYSTEM_VERSION),
                total_mileage: session.mileage,
                total_part: 1,
                kind: String::from_str(ACTIVITY_KIND),
                uneffective_reason: String::new(),
            },
        )
    }

    /// Draws afresh and prepares the upload of a session of the requested
    /// mileage that is to end at `end_time`. Whatever was drawn, the outcome
    /// is the one that `upload_running_with` gives for those draws.
    pub fn upload_running(&self, mileage: i64, end_time: i64, document: Option<String>) -> (r:
        Result<UploadRequest, AccountError>)
        requires
            self.wf(),
        ensures
            exists|draws: Draws|
                draws.valid() && match #[trigger] self.upload_fault(
                    mileage as int,
                    end_time as int,
                    draws,
                    document_text(document),
                ) {
                    Some(e) => r == Err::<UploadRequest, AccountError>(e),
                    None => r matches Ok(request) && request.reports(
                        *self,
                        SessionParameters::derived(mileage as int, end_time as int, draws),
                        timestamp_text(end_time - request.keep_time).unwrap(),
                        timestamp_text(end_time as int).unwrap(),
                    ) && request.routed(
                        SessionParameters::derived(mileage as int, end_time as int, draws),
                        document_text(document),
                    ),
                },
    {
        let draws = Draws::draw();
        self.upload_running_with(mileage, end_time, draws, document)
    }

    /// The mileage to request for a share of what can still be credited:
    /// `percent` hundredths of it, rounded toward zero.
    pub fn target_mileage(&self, percent: u8) -> (r: i64)
        requires
            self.wf(),
        ensures
            r == share_of(self.quota.remaining(), percent as int),
    {
        let most = self.max_mileage();
        assert(-510_000_000_000 <= most * (percent as i64) <= 255_000_000_000)
            by (nonlinear_arith)
            requires
                -2_000_000_000 <= most <= 1_000_000_000,
                0 <= percent <= 255,
        ;
        let whole = most * (percent as i64);
        if whole >= 0 {
            whole / 100
        } else {
            -((-whole) / 100)
        }
    }

    /// The mileage that can still be credited to the account.
    pub fn max_mileage(&self) -> (r: i64)
        requires
            self.wf(),
        ensures
            r == self.quota.remaining(),
    {
        self.quota.max_mileage()
    }
}

} // verus!

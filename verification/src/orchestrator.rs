//! Registered orchestrator applications and user synchronisation.
//!
//! An orchestrator is an external application registered with a name, a
//! callback URL and a static bearer token. User records are pushed to
//! every registered application except the one named `app_auth`; the
//! planning of those deliveries — who receives them and at what URL —
//! is verified here, while the surrounding application performs the
//! HTTP posts, best-effort and in order.

use vstd::prelude::*;
use crate::app_error::AppError;
use crate::ids::Id;
use crate::pagination::PaginatedResponse;
use crate::text::{chars_to_string, dec_digits, str_chars, str_concat, str_eq, u64_to_string};
use crate::validation::{ValidationError, is_valid_url, validate_length, validate_url};

verus! {

#[derive(Debug, Clone)]
pub struct Orchestrator {
    pub id: Id,
    pub app_name: String,
    pub app_url: String,
    pub app_token: Id,
    pub dt_created: i64,
    pub dt_updated: i64,
    pub dt_deleted: Option<i64>,
}

#[derive(Debug, Clone)]
pub struct CreateOrchestratorRequest {
    pub app_name: String,
    pub app_url: String,
}

impl CreateOrchestratorRequest {
    pub open spec fn is_acceptable(self) -> bool {
        2 <= self.app_name@.len() <= 100 && is_valid_url(self.app_url@)
    }

    pub fn validate(&self) -> (r: Result<(), ValidationError>)
        ensures
            r is Ok <==> self.is_acceptable(),
    {
        match validate_length(
            self.app_name.as_str(),
            2,
            100,
            "O nome do app deve ter entre 2 e 100 caracteres",
        ) {
            Ok(_) => {},
            Err(e) => {
                return Err(e);
            },
        }
        match validate_url(self.app_url.as_str(), "URL do app inválida") {
            Ok(_) => {},
            Err(e) => {
                return Err(e);
            },
        }
        Ok(())
    }
}

#[derive(Debug, Clone)]
pub struct UpdateOrchestratorRequest {
    pub app_name: Option<String>,
    pub app_url: Option<String>,
}

#[derive(Debug, Clone)]
pub struct OrchestratorResponse {
    pub id: Id,
    pub app_name: String,
    pub app_url: String,
    pub app_token: Id,
    pub dt_created: i64,
    pub dt_updated: i64,
}

#[derive(Debug, Clone)]
pub struct AppAuthorizationResponse {
    pub app_name: String,
    /// `authorized` or `unauthorized`.
    pub status: String,
}

#[derive(Debug, Clone)]
pub struct SyncAllUsersRequest {
    pub app_name: String,
}

impl SyncAllUsersRequest {
    pub open spec fn is_acceptable(self) -> bool {
        2 <= self.app_name@.len() <= 100
    }

    pub fn validate(&self) -> (r: Result<(), ValidationError>)
        ensures
            r is Ok <==> self.is_acceptable(),
    {
        match validate_length(
            self.app_name.as_str(),
            2,
            100,
            "O nome do app deve ter entre 2 e 100 caracteres",
        ) {
            Ok(_) => Ok(()),
            Err(e) => Err(e),
        }
    }
}

impl Orchestrator {
    /// The record a registration inserts: the requested name and URL, the
    /// given fresh identifiers, both timestamps at `now`.
    pub fn new(id: Id, app_token: Id, request: CreateOrchestratorRequest, now: i64) -> (r:
        Orchestrator)
        ensures
            r.id == id,
            r.app_token == app_token,
            r.app_name == request.app_name,
            r.app_url == request.app_url,
            r.dt_created == now,
            r.dt_updated == now,
            r.dt_deleted is None,
    {
        Orchestrator {
            id,
            app_name: request.app_name,
            app_url: request.app_url,
            app_token,
            dt_created: now,
            dt_updated: now,
            dt_deleted: None,
        }
    }

    /// The record after a partial update: a given field replaces the old
    /// one, `dt_updated` becomes `now`; everything else keeps its value.
    pub fn apply_update(self, request: UpdateOrchestratorRequest, now: i64) -> (r: Orchestrator)
        ensures
            r.id == self.id,
            r.app_name == (match request.app_name {
                Some(n) => n,
                None => self.app_name,
            }),
            r.app_url == (match request.app_url {
                Some(u) => u,
                None => self.app_url,
            }),
            r.app_token == self.app_token,
            r.dt_created == self.dt_created,
            r.dt_updated == now,
            r.dt_deleted == self.dt_deleted,
    {
        Orchestrator {
            app_name: match request.app_name {
                Some(n) => n,
                None => self.app_name,
            },
            app_url: match request.app_url {
                Some(u) => u,
                None => self.app_url,
            },
            dt_updated: now,
            ..self
        }
    }

    /// The answer a read returns: the record without its deletion mark.
    pub fn into_response(self) -> (r: OrchestratorResponse)
        ensures
            r.id == self.id,
            r.app_name == self.app_name,
            r.app_url == self.app_url,
            r.app_token == self.app_token,
            r.dt_created == self.dt_created,
            r.dt_updated == self.dt_updated,
    {
        OrchestratorResponse {
            id: self.id,
            app_name: self.app_name,
            app_url: self.app_url,
            app_token: self.app_token,
            dt_created: self.dt_created,
            dt_updated: self.dt_updated,
        }
    }

    /// A field-for-field copy.
    pub fn clone_record(&self) -> (r: Orchestrator)
        ensures
            r == *self,
    {
        Orchestrator {
            id: self.id,
            app_name: self.app_name.clone(),
            app_url: self.app_url.clone(),
            app_token: self.app_token,
            dt_created: self.dt_created,
            dt_updated: self.dt_updated,
            dt_deleted: self.dt_deleted,
        }
    }
}

pub struct OrchestratorService;

impl OrchestratorService {
    /// The answer to an app's authorization probe: the app's name and
    /// `authorized` when the token names a registered app, `unknown` and
    /// `unauthorized` otherwise.
    pub fn authorization_response(orchestrator: Option<Orchestrator>) -> (r:
        AppAuthorizationResponse)
        ensures
            match orchestrator {
                Some(o) => r.app_name == o.app_name && r.status@ == "authorized"@,
                None => r.app_name@ == "unknown"@ && r.status@ == "unauthorized"@,
            },
    {
        match orchestrator {
            Some(o) => AppAuthorizationResponse {
                app_name: o.app_name,
                status: "authorized".to_owned(),
            },
            None => AppAuthorizationResponse {
                app_name: "unknown".to_owned(),
                status: "unauthorized".to_owned(),
            },
        }
    }

    /// The page the orchestrator listing answers: every response, the
    /// count, and the fixed limit 10 and offset 0 this listing always
    /// reports.
    pub fn list_response(responses: Vec<OrchestratorResponse>) -> (r: PaginatedResponse<
        OrchestratorResponse,
    >)
        requires
            responses@.len() <= i64::MAX,
        ensures
            r.count == responses@.len(),
            r.results == responses,
            r.limit == 10,
            r.offset == 0,
    {
        let count: i64 = responses.len() as i64;
        PaginatedResponse { count, results: responses, limit: 10, offset: 0 }
    }
}

/// The URL with its trailing slashes removed.
pub open spec fn trimmed_of_slashes(s: Seq<char>) -> Seq<char>
    decreases s.len(),
{
    if s.len() > 0 && s.last() == '/' {
        trimmed_of_slashes(s.drop_last())
    } else {
        s
    }
}

/// The endpoint a user snapshot is posted to: the registered URL without
/// trailing slashes, then `/v1/event-sync/`.
pub open spec fn sync_url_of(app_url: Seq<char>) -> Seq<char> {
    trimmed_of_slashes(app_url) + "/v1/event-sync/"@
}

/// Builds the sync endpoint for a registered URL.
pub fn sync_url(app_url: &str) -> (r: String)
    ensures
        r@ == sync_url_of(app_url@),
{
    let mut v = str_chars(app_url);
    let mut end: usize = v.len();
    proof {
        assert(v@.take(end as int) =~= v@);
    }
    while end > 0 && v[end - 1] == '/'
        invariant
            end <= v@.len(),
            v@ == app_url@,
            trimmed_of_slashes(v@) == trimmed_of_slashes(v@.take(end as int)),
        decreases end,
    {
        proof {
            assert(v@.take(end as int).drop_last() =~= v@.take(end as int - 1));
            assert(v@.take(end as int).last() == v@[end - 1]);
        }
        end = end - 1;
    }
    proof {
        if end == 0 {
            assert(trimmed_of_slashes(v@.take(0int)) =~= v@.take(0int));
        }
        assert(trimmed_of_slashes(v@) == v@.take(end as int));
    }
    v.truncate(end);
    str_concat(chars_to_string(&v).as_str(), "/v1/event-sync/")
}

/// One delivery of the user-sync plan: the receiving app, its endpoint
/// and the bearer token to present.
#[derive(Debug, Clone)]
pub struct SyncTarget {
    pub app_name: String,
    pub url: String,
    pub auth_token: Id,
}

/// Whether an orchestrator receives user snapshots: it must match the
/// requested name when one was given, and the `app_auth` application
/// never receives them.
pub open spec fn wants_sync(o: Orchestrator, only_app: Option<Seq<char>>) -> bool {
    &&& match only_app {
        Some(n) => o.app_name@ == n,
        None => true,
    }
    &&& o.app_name@ != "app_auth"@
}

/// The delivery filter, as a predicate over orchestrators.
pub open spec fn sync_pred(only_app: Option<Seq<char>>) -> spec_fn(Orchestrator) -> bool {
    |o: Orchestrator| wants_sync(o, only_app)
}

pub struct SyncProducer;

impl SyncProducer {
    /// Plans a user sync: one delivery per registered orchestrator that
    /// passes the filter, in registration order, each at its sync
    /// endpoint with its own token.
    pub fn plan_sync(orchestrators: &Vec<Orchestrator>, only_app: Option<&str>) -> (r: Vec<
        SyncTarget,
    >)
        ensures
            ({
                let kept = orchestrators@.filter(
                    sync_pred(
                        match only_app {
                            Some(n) => Some(n@),
                            None => None,
                        },
                    ),
                );
                &&& r@.len() == kept.len()
                &&& forall|i: int|
                    0 <= i < r@.len() ==> (#[trigger] r@[i]).app_name@ == kept[i].app_name@
                        && r@[i].auth_token == kept[i].app_token && r@[i].url@ == sync_url_of(
                        kept[i].app_url@,
                    )
            }),
    {
        let ghost filt: Option<Seq<char>> = match only_app {
            Some(n) => Some(n@),
            None => None,
        };
        let ghost pred = sync_pred(filt);
        let mut out: Vec<SyncTarget> = Vec::new();
        let n: usize = orchestrators.len();
        let mut i: usize = 0;
        proof {
            assert(orchestrators@.take(0int).filter(pred) =~= Seq::<Orchestrator>::empty()) by {
                reveal(Seq::filter);
            }
        }
        while i < n
            invariant
                i <= n,
                n == orchestrators@.len(),
                pred == sync_pred(filt),
                filt == (match only_app {
                    Some(n0) => Some(n0@),
                    None => None,
                }),
                ({
                    let kept = orchestrators@.take(i as int).filter(pred);
                    &&& out@.len() == kept.len()
                    &&& forall|j: int|
                        0 <= j < out@.len() ==> (#[trigger] out@[j]).app_name@ == kept[j].app_name@
                            && out@[j].auth_token == kept[j].app_token && out@[j].url@
                            == sync_url_of(kept[j].app_url@)
                }),
            decreases n - i,
        {
            let ghost pre = orchestrators@.take(i as int);
            let o = &orchestrators[i];
            proof {
                assert(orchestrators@.take(i as int + 1) =~= pre.push(orchestrators@[i as int]));
                pre.lemma_filter_push(orchestrators@[i as int], pred);
            }
            let name_ok: bool = match only_app {
                Some(n0) => str_eq(o.app_name.as_str(), n0),
                None => true,
            };
            if name_ok && !str_eq(o.app_name.as_str(), "app_auth") {
                out.push(
                    SyncTarget {
                        app_name: o.app_name.clone(),
                        url: sync_url(o.app_url.as_str()),
                        auth_token: o.app_token,
                    },
                );
            }
            i = i + 1;
        }
        proof {
            assert(orchestrators@.take(n as int) =~= orchestrators@);
        }
        out
    }

    /// The outcome of a full sync: success when nothing failed, or an
    /// internal error naming how many of the users could not be
    /// delivered.
    pub fn sync_summary(success_count: u64, error_count: u64) -> (r: Result<(), AppError>)
        requires
            success_count + error_count <= u64::MAX,
        ensures
            error_count == 0 ==> r is Ok,
            error_count > 0 ==> (r matches Err(e) && e matches AppError::InternalError(_)
                && e.message() matches Some(m) && m@ == "Sync concluído com "@ + dec_digits(
                error_count as int,
            ) + " erros de "@ + dec_digits(success_count + error_count) + " usuários"@),
    {
        if error_count == 0 {
            return Ok(());
        }
        let total: u64 = success_count + error_count;
        let part1 = str_concat("Sync concluído com ", u64_to_string(error_count).as_str());
        let part2 = str_concat(part1.as_str(), " erros de ");
        let part3 = str_concat(part2.as_str(), u64_to_string(total).as_str());
        let message = str_concat(part3.as_str(), " usuários");
        Err(AppError::internal(message.as_str()))
    }
}

} // verus!

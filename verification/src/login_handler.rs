//! The login flow: from the directory's reply to the response.
//!
//! A login starts unbound, binds to the directory, finds the user's entry,
//! checks the password against the stored credential and issues a token by
//! rotating the user's record. Each step either moves on or ends the login
//! in a failure state. The caller talks to the directory and hands the reply
//! over; everything that is decided is decided here.

use crate::continue_url::{
    classification, ClassificationModel, Classification, ContinueValidator, InvalidAllowedDomain,
};
use crate::context::Context;
use crate::openldap::codes::scopes::LDAP_SCOPE_BASE;
use crate::openldap::errors::LDAPError;
use crate::openldap::{
    first_value_of, is_no_such_object, no_such_object, DirectoryEntry, LDAPResponse, RustLDAP,
    SearchRequest,
};
use crate::outside::{form_decoded, form_pairs, url_append_pair, url_with_pair, URL_INPUT_LIMIT};
use crate::password::{check_password, credential_accepts};
use crate::store::{apply_batch, WriteBatchWrapper};
use crate::token::{generate, is_token};
use crate::token_store::{
    current_token, is_identity, records_complete, resolve, rotated, rotation_ops, TokenStore,
};
use vstd::prelude::*;
use vstd::string::{StringExecFns, StringSliceAdditionalSpecFns};
use vstd::utf8::encode_utf8;

verus! {

/// The directory base that is configured as the default where the
/// configuration names none.
pub const DEFAULT_DN: &'static str = "dc=ansvia,dc=org";

/// The continuation of a login that names none.
pub const DEFAULT_CONTINUE: &'static str = "?";

/// What a user is told when the credentials were not recognised, whichever
/// step refused them.
pub const CREDENTIALS_MESSAGE: &'static str =
    "Identitas atau kata kunci tidak benar, mohon pastikan identitas atau kata kunci yang Anda masukkan benar.";

/// What a user is told when the directory could not be used.
pub const INTERNAL_MESSAGE: &'static str =
    "Internal server error. Gagal terhubung dengan server LDAP.";

/// The states of a login.
#[derive(Clone, Copy, Debug, PartialEq, Eq, Structural)]
pub enum AuthState {
    Start,
    DirectoryBound,
    EntryFound,
    PasswordChecked,
    TokenIssued,
    DirectoryUnreachable,
    EntryNotFound,
    PasswordRejected,
}

/// What the caller learned from the directory.
pub enum DirectoryReply {
    /// The bind as administrator was refused or the server was not reached.
    Unreachable,
    /// The bind succeeded and the search for the user's entry was made.
    Searched(Result<LDAPResponse, LDAPError>),
}

/// What is sent back to the requester.
pub enum LoginResponse {
    /// Redirect to this URL, which carries the token.
    Redirect(String),
    /// Hand the token back directly.
    Token(String),
    /// Render an error page with this message.
    Error(String),
}

/// The mathematical form of a [`LoginResponse`].
pub enum LoginResponseModel {
    Redirect(Seq<char>),
    Token(Seq<char>),
    Error(Seq<char>),
}

impl View for LoginResponse {
    type V = LoginResponseModel;

    open spec fn view(&self) -> LoginResponseModel {
        match self {
            LoginResponse::Redirect(url) => LoginResponseModel::Redirect(url@),
            LoginResponse::Token(token) => LoginResponseModel::Token(token@),
            LoginResponse::Error(message) => LoginResponseModel::Error(message@),
        }
    }
}

/// How a login ended.
pub struct LoginOutcome {
    /// The state the login ended in.
    pub state: AuthState,
    /// The states the login went through, from `Start` to `state`.
    pub trace: Vec<AuthState>,
    /// The token that was issued, where one was.
    pub token: Option<String>,
    /// The batch that was committed to the token store, where one was.
    pub batch: Option<WriteBatchWrapper>,
    /// What to send back.
    pub response: LoginResponse,
}

/// A login that has gone as far as it can without writing to the token
/// store: it has either failed, or the password is checked and the batch that
/// issues the token is planned.
pub struct PreparedLogin {
    /// `PasswordChecked`, or the failure state the login ended in.
    pub state: AuthState,
    /// The states the login went through, from `Start` to `state`.
    pub trace: Vec<AuthState>,
    /// The token to issue, where the password is checked.
    pub token: Option<String>,
    /// The batch that issues the token, where the password is checked.
    pub batch: Option<WriteBatchWrapper>,
}

/// The handler of logins for one allowed domain.
pub struct LoginHandler {
    validator: ContinueValidator,
}

/// Whether a login may move from `from` to `to` in one step.
pub open spec fn may_follow(from: AuthState, to: AuthState) -> bool {
    match (from, to) {
        (AuthState::Start, AuthState::DirectoryBound) => true,
        (AuthState::Start, AuthState::DirectoryUnreachable) => true,
        (AuthState::DirectoryBound, AuthState::EntryFound) => true,
        (AuthState::DirectoryBound, AuthState::EntryNotFound) => true,
        (AuthState::DirectoryBound, AuthState::DirectoryUnreachable) => true,
        (AuthState::EntryFound, AuthState::PasswordChecked) => true,
        (AuthState::EntryFound, AuthState::PasswordRejected) => true,
        (AuthState::PasswordChecked, AuthState::TokenIssued) => true,
        _ => false,
    }
}

/// Whether a login ends in `state`.
pub open spec fn is_terminal(state: AuthState) -> bool {
    match state {
        AuthState::TokenIssued => true,
        AuthState::DirectoryUnreachable => true,
        AuthState::EntryNotFound => true,
        AuthState::PasswordRejected => true,
        _ => false,
    }
}

/// A run of the state machine: it begins in `Start` and every state follows
/// the one before it.
pub open spec fn valid_trace(trace: Seq<AuthState>) -> bool {
    &&& trace.len() >= 1
    &&& trace[0] == AuthState::Start
    &&& forall|i: int| 0 <= i < trace.len() - 1 ==> may_follow(#[trigger] trace[i], trace[i + 1])
}

/// The name of the attribute that holds the stored credential.
pub open spec fn password_attribute() -> Seq<char> {
    "userPassword"@
}

/// The name of the query parameter that carries the token.
pub open spec fn token_parameter() -> Seq<char> {
    "token"@
}

/// The stored credential of the first entry of a response: the first value of
/// its `userPassword` attribute, the empty text where there is none.
pub open spec fn stored_credential_of(entries: Seq<DirectoryEntry>) -> Seq<char> {
    first_value_of(entries[0].attributes@, password_attribute())
}

/// The state a login is in once the directory has replied and before the
/// password is looked at. No entry and a missing search base both mean that
/// the entry was not found; any other failure leaves the directory
/// unreachable.
pub open spec fn state_after_directory(reply: DirectoryReply) -> AuthState {
    match reply {
        DirectoryReply::Unreachable => AuthState::DirectoryUnreachable,
        DirectoryReply::Searched(Err(error)) => if error.text() == no_such_object() {
            AuthState::EntryNotFound
        } else {
            AuthState::DirectoryUnreachable
        },
        DirectoryReply::Searched(Ok(entries)) => if entries@.len() == 0 {
            AuthState::EntryNotFound
        } else {
            AuthState::EntryFound
        },
    }
}

/// The state a login ends in.
pub open spec fn final_state(reply: DirectoryReply, password: Seq<u8>) -> AuthState {
    match reply {
        DirectoryReply::Searched(Ok(entries)) => if entries@.len() == 0 {
            AuthState::EntryNotFound
        } else if credential_accepts(stored_credential_of(entries@), password) {
            AuthState::TokenIssued
        } else {
            AuthState::PasswordRejected
        },
        _ => state_after_directory(reply),
    }
}

/// The state a login is in before anything is written to the token store:
/// its final state, except that a login whose password matches has not yet
/// gone beyond `PasswordChecked`.
pub open spec fn state_before_issue(reply: DirectoryReply, password: Seq<u8>) -> AuthState {
    if final_state(reply, password) == AuthState::TokenIssued {
        AuthState::PasswordChecked
    } else {
        final_state(reply, password)
    }
}

/// The distinguished name of the entry of `user_name` under `dn`.
pub open spec fn user_dn(user_name: Seq<char>, dn: Seq<char>) -> Seq<char> {
    "uid="@ + user_name + ",ou=People,"@ + dn
}

/// Whether `url`, the token parameter and `token` are together short enough
/// to be handed to the URL parser.
pub open spec fn redirect_fits(url: Seq<char>, token: Seq<char>) -> bool {
    encode_utf8(url).len() + encode_utf8(token_parameter()).len() + encode_utf8(token).len()
        <= URL_INPUT_LIMIT
}

/// The URL to redirect to: `url` with the token appended as a query
/// parameter, where `url` is short enough and parses as an absolute URL.
pub open spec fn redirect_target_of(url: Seq<char>, token: Seq<char>) -> Option<Seq<char>> {
    if redirect_fits(url, token) {
        url_with_pair(url, token_parameter(), token)
    } else {
        None
    }
}

/// The response to a login that ended in `state`. With a token issued, the
/// classification of the continuation decides: an allowed target is
/// redirected to, with the token appended; a rejected one, or an allowed one
/// that cannot be extended, gets the credentials message; anything else gets
/// the token itself. Without a token the user is told that the credentials
/// were not recognised, or, where the directory failed, that the service
/// did.
pub open spec fn response_of(
    state: AuthState,
    token: Seq<char>,
    pattern: Seq<char>,
    continuation: Seq<char>,
) -> LoginResponseModel {
    match state {
        AuthState::TokenIssued => match classification(pattern, continuation) {
            ClassificationModel::AllowedRedirect(url) => match redirect_target_of(url, token) {
                Some(target) => LoginResponseModel::Redirect(target),
                None => LoginResponseModel::Error(CREDENTIALS_MESSAGE@),
            },
            ClassificationModel::RejectedExternalUrl => LoginResponseModel::Error(
                CREDENTIALS_MESSAGE@,
            ),
            ClassificationModel::Opaque(_) => LoginResponseModel::Token(token),
        },
        AuthState::DirectoryUnreachable => LoginResponseModel::Error(INTERNAL_MESSAGE@),
        _ => LoginResponseModel::Error(CREDENTIALS_MESSAGE@),
    }
}

/// The value of the last pair named `name`, the empty text where there is
/// none.
pub open spec fn field_of(pairs: Seq<(Seq<char>, Seq<char>)>, name: Seq<char>) -> Seq<char>
    decreases pairs.len(),
{
    if pairs.len() == 0 {
        Seq::<char>::empty()
    } else if pairs.last().0 == name {
        pairs.last().1
    } else {
        field_of(pairs.drop_last(), name)
    }
}

/// The text of an optional token, empty where there is none.
pub open spec fn token_text(token: Option<String>) -> Seq<char> {
    match token {
        Some(text) => text@,
        None => Seq::<char>::empty(),
    }
}

/// Every terminal state is reached from `Start` by steps of the state
/// machine, and no step leads out of it.
pub proof fn lemma_terminal_states(state: AuthState)
    requires
        is_terminal(state),
    ensures
        exists|trace: Seq<AuthState>| valid_trace(trace) && trace.last() == state,
        forall|next: AuthState| !may_follow(state, next),
{
    let trace = match state {
        AuthState::TokenIssued => seq![
            AuthState::Start,
            AuthState::DirectoryBound,
            AuthState::EntryFound,
            AuthState::PasswordChecked,
            AuthState::TokenIssued,
        ],
        AuthState::PasswordRejected => seq![
            AuthState::Start,
            AuthState::DirectoryBound,
            AuthState::EntryFound,
            AuthState::PasswordRejected,
        ],
        AuthState::EntryNotFound => seq![
            AuthState::Start,
            AuthState::DirectoryBound,
            AuthState::EntryNotFound,
        ],
        _ => seq![AuthState::Start, AuthState::DirectoryUnreachable],
    };
    assert(valid_trace(trace) && trace.last() == state);
}

/// An entry without a stored credential, or with an empty one, rejects every
/// password.
pub proof fn lemma_missing_credential_rejected(entries: LDAPResponse, password: Seq<u8>)
    requires
        entries@.len() > 0,
        stored_credential_of(entries@).len() == 0,
    ensures
        final_state(DirectoryReply::Searched(Ok(entries)), password) == AuthState::PasswordRejected,
{
}

/// A login that does not end with a token issued ends in a failure state, and
/// is answered with one of the two fixed messages, whatever the token and the
/// continuation.
pub proof fn lemma_failures_get_fixed_messages(
    state: AuthState,
    token: Seq<char>,
    pattern: Seq<char>,
    continuation: Seq<char>,
)
    requires
        state != AuthState::TokenIssued,
    ensures
        response_of(state, token, pattern, continuation) == LoginResponseModel::Error(
            CREDENTIALS_MESSAGE@,
        ) || response_of(state, token, pattern, continuation) == LoginResponseModel::Error(
            INTERNAL_MESSAGE@,
        ),
        state == AuthState::EntryNotFound || state == AuthState::PasswordRejected ==> response_of(
            state,
            token,
            pattern,
            continuation,
        ) == LoginResponseModel::Error(CREDENTIALS_MESSAGE@),
{
}

/// The directory base of a login: the one it names, or the configured
/// default where it names none.
pub fn target_dn(requested: Option<&str>, configured: &str) -> (dn: String)
    ensures
        dn@ == match requested {
            Some(text) => text@,
            None => configured@,
        },
{
    match requested {
        Some(text) => text.to_owned(),
        None => configured.to_owned(),
    }
}

/// The continuation of a login: the one it names, or the default.
pub fn target_continue(requested: Option<&str>) -> (continuation: String)
    ensures
        continuation@ == match requested {
            Some(text) => text@,
            None => DEFAULT_CONTINUE@,
        },
{
    match requested {
        Some(text) => text.to_owned(),
        None => DEFAULT_CONTINUE.to_owned(),
    }
}

/// The user name and the password of a login form: for each, the value of
/// the last field so named, empty where the form has none.
pub fn read_login_form(body: &str) -> (fields: (String, String))
    ensures
        fields.0@ == field_of(form_decoded(body@), "user_name"@),
        fields.1@ == field_of(form_decoded(body@), "password"@),
{
    let pairs = form_pairs(body);
    let ghost decoded = form_decoded(body@);
    let mut user_name = String::new();
    let mut password = String::new();
    let name_key = "user_name".to_owned();
    let password_key = "password".to_owned();
    let mut i: usize = 0;
    while i < pairs.len()
        invariant
            i <= pairs@.len(),
            pairs@.len() == decoded.len(),
            forall|k: int|
                0 <= k < pairs@.len() ==> (#[trigger] pairs@[k]).0@ == decoded[k].0
                    && pairs@[k].1@ == decoded[k].1,
            name_key@ == "user_name"@,
            password_key@ == "password"@,
            user_name@ == field_of(decoded.take(i as int), "user_name"@),
            password@ == field_of(decoded.take(i as int), "password"@),
        decreases pairs@.len() - i,
    {
        proof {
            let next = decoded.take(i as int + 1);
            assert(next.drop_last() =~= decoded.take(i as int));
        }
        if pairs[i].0 == name_key {
            user_name = pairs[i].1.clone();
        }
        if pairs[i].0 == password_key {
            password = pairs[i].1.clone();
        }
        i += 1;
    }
    assert(decoded.take(pairs@.len() as int) =~= decoded);
    (user_name, password)
}

/// The search for the entry of `user_name` under `dn`: that entry and
/// nothing below it.
pub fn user_search(session: &RustLDAP, user_name: &str, dn: &str) -> (request: SearchRequest)
    ensures
        request.base@ == user_dn(user_name@, dn@),
        request.scope == LDAP_SCOPE_BASE,
        request.filter is None,
        request.attrs is None,
        !request.attrsonly,
        request.sizelimit == -1,
{
    let base = "uid=".to_owned().concat(user_name).concat(",ou=People,").concat(dn);
    session.simple_search(base.as_str(), LDAP_SCOPE_BASE)
}

/// The stored credential of the first entry of `entries`.
pub fn stored_credential(entries: &LDAPResponse) -> (stored: String)
    requires
        entries@.len() > 0,
    ensures
        stored@ == stored_credential_of(entries@),
{
    entries[0].first_value("userPassword")
}

/// The state a login is in once the directory has replied and before the
/// password is looked at.
pub fn directory_state(reply: &DirectoryReply) -> (state: AuthState)
    ensures
        state == state_after_directory(*reply),
{
    match reply {
        DirectoryReply::Unreachable => AuthState::DirectoryUnreachable,
        DirectoryReply::Searched(Err(error)) => {
            if is_no_such_object(error) {
                AuthState::EntryNotFound
            } else {
                AuthState::DirectoryUnreachable
            }
        },
        DirectoryReply::Searched(Ok(entries)) => {
            if entries.len() == 0 {
                AuthState::EntryNotFound
            } else {
                AuthState::EntryFound
            }
        },
    }
}

/// The URL to redirect to: `url` with the token appended as the query
/// parameter `token`.
pub fn redirect_target(url: &str, token: &str) -> (target: Option<String>)
    ensures
        match target {
            Some(text) => redirect_target_of(url@, token@) == Some(text@),
            None => redirect_target_of(url@, token@) is None,
        },
{
    let name = "token";
    let url_length = url.as_bytes().len();
    let name_length = name.as_bytes().len();
    let token_length = token.as_bytes().len();
    if url_length > URL_INPUT_LIMIT || name_length > URL_INPUT_LIMIT - url_length || token_length
        > URL_INPUT_LIMIT - url_length - name_length {
        return None;
    }
    url_append_pair(url, name, token)
}

/// Records that the login moves on to `next`.
fn step(trace: &mut Vec<AuthState>, next: AuthState)
    requires
        valid_trace(old(trace)@),
        may_follow(old(trace)@.last(), next),
    ensures
        valid_trace(final(trace)@),
        final(trace)@ == old(trace)@.push(next),
        final(trace)@.last() == next,
{
    trace.push(next);
}

/// What to answer when the batch of a prepared login could not be written
/// to the durable store: no token is handed out, and the user is told only
/// that the service failed.
pub fn store_failure() -> (response: LoginResponse)
    ensures
        response@ == LoginResponseModel::Error(INTERNAL_MESSAGE@),
{
    LoginResponse::Error(INTERNAL_MESSAGE.to_owned())
}

/// Makes the handler of logins for the allowed domain of `ctx`. Refused
/// exactly when that domain gives no usable allow pattern.
pub fn setup(ctx: &Context) -> (made: Result<LoginHandler, InvalidAllowedDomain>)
    ensures
        made matches Ok(handler) ==> handler.pattern() == crate::continue_url::allow_pattern(
            ctx.conf.allowed_continue_domain@,
        ),
        made is Ok <==> crate::outside::regex_compiles(
            crate::continue_url::allow_pattern(ctx.conf.allowed_continue_domain@),
        ) && crate::outside::regex_compiles(crate::continue_url::url_pattern()),
{
    match ContinueValidator::new(ctx.conf.allowed_continue_domain.as_str()) {
        Ok(validator) => Ok(LoginHandler { validator }),
        Err(refusal) => Err(refusal),
    }
}

impl LoginHandler {
    /// The allow pattern that continuations are held against.
    pub closed spec fn pattern(&self) -> Seq<char> {
        self.validator.pattern()
    }

    /// The validator of continuations.
    pub fn validator(&self) -> (validator: &ContinueValidator)
        ensures
            validator.pattern() == self.pattern(),
    {
        &self.validator
    }

    /// Shapes the response to a login that ended in `state` with `token`.
    pub fn respond(&self, state: AuthState, token: &str, continuation: &str) -> (response:
        LoginResponse)
        ensures
            response@ == response_of(state, token@, self.pattern(), continuation@),
    {
        match state {
            AuthState::TokenIssued => match self.validator.classify(continuation) {
                Classification::AllowedRedirect(url) => match redirect_target(url.as_str(), token) {
                    Some(target) => LoginResponse::Redirect(target),
                    None => LoginResponse::Error(CREDENTIALS_MESSAGE.to_owned()),
                },
                Classification::RejectedExternalUrl => LoginResponse::Error(
                    CREDENTIALS_MESSAGE.to_owned(),
                ),
                Classification::Opaque(_) => LoginResponse::Token(token.to_owned()),
            },
            AuthState::DirectoryUnreachable => LoginResponse::Error(INTERNAL_MESSAGE.to_owned()),
            _ => LoginResponse::Error(CREDENTIALS_MESSAGE.to_owned()),
        }
    }

    /// Takes a login as far as it goes without writing to the token store,
    /// with `token` as the token to issue. The password is checked against
    /// the stored credential of the entry that was found; where it matches,
    /// the batch that rotates the record of `user_name` to `token` is planned
    /// against `store` as it stands.
    pub fn prepare_with(
        &self,
        store: &TokenStore,
        user_name: &str,
        given_password: &str,
        dn: &str,
        reply: DirectoryReply,
        token: String,
    ) -> (prepared: PreparedLogin)
        ensures
            prepared.state == state_before_issue(reply, given_password.spec_bytes()),
            valid_trace(prepared.trace@),
            prepared.trace@.last() == prepared.state,
            prepared.state == AuthState::PasswordChecked ==> {
                &&& prepared.token == Some(token)
                &&& prepared.batch matches Some(batch)
                &&& batch@ == rotation_ops(
                    current_token(store@, user_name@),
                    user_name@,
                    dn@,
                    token@,
                )
                &&& apply_batch(store@, batch@) == rotated(store@, user_name@, dn@, token@)
            },
            prepared.state != AuthState::PasswordChecked ==> {
                &&& is_terminal(prepared.state)
                &&& prepared.token is None
                &&& prepared.batch is None
            },
    {
        let mut trace: Vec<AuthState> = Vec::new();
        trace.push(AuthState::Start);
        let after_directory = directory_state(&reply);
        let state = match &reply {
            DirectoryReply::Unreachable => {
                step(&mut trace, AuthState::DirectoryUnreachable);
                AuthState::DirectoryUnreachable
            },
            DirectoryReply::Searched(Err(_)) => {
                step(&mut trace, AuthState::DirectoryBound);
                step(&mut trace, after_directory);
                after_directory
            },
            DirectoryReply::Searched(Ok(entries)) => {
                step(&mut trace, AuthState::DirectoryBound);
                if entries.len() == 0 {
                    step(&mut trace, AuthState::EntryNotFound);
                    AuthState::EntryNotFound
                } else {
                    step(&mut trace, AuthState::EntryFound);
                    let stored = stored_credential(entries);
                    if check_password(stored.as_str(), given_password) {
                        step(&mut trace, AuthState::PasswordChecked);
                        AuthState::PasswordChecked
                    } else {
                        step(&mut trace, AuthState::PasswordRejected);
                        AuthState::PasswordRejected
                    }
                }
            },
        };
        if state == AuthState::PasswordChecked {
            let batch = store.plan_rotation(user_name, dn, token.as_str());
            PreparedLogin { state, trace, token: Some(token), batch: Some(batch) }
        } else {
            PreparedLogin { state, trace, token: None, batch: None }
        }
    }

    /// Takes a login as far as it goes without writing to the token store,
    /// drawing a fresh token where the password matches.
    pub fn prepare(
        &self,
        store: &TokenStore,
        user_name: &str,
        given_password: &str,
        dn: &str,
        reply: DirectoryReply,
    ) -> (prepared: PreparedLogin)
        ensures
            prepared.state == state_before_issue(reply, given_password.spec_bytes()),
            valid_trace(prepared.trace@),
            prepared.trace@.last() == prepared.state,
            prepared.state == AuthState::PasswordChecked ==> {
                &&& prepared.token matches Some(token)
                &&& is_token(token@)
                &&& prepared.batch matches Some(batch)
                &&& batch@ == rotation_ops(
                    current_token(store@, user_name@),
                    user_name@,
                    dn@,
                    token@,
                )
                &&& apply_batch(store@, batch@) == rotated(store@, user_name@, dn@, token@)
            },
            prepared.state != AuthState::PasswordChecked ==> {
                &&& is_terminal(prepared.state)
                &&& prepared.token is None
                &&& prepared.batch is None
            },
    {
        let token = generate();
        self.prepare_with(store, user_name, given_password, dn, reply, token)
    }

    /// Ends a prepared login. Where the password is checked and a token and
    /// its batch are at hand, the batch is committed to `store` as one unit,
    /// the login moves on to `TokenIssued` and the response is shaped for the
    /// token. In every other case the store is left as it was and the
    /// response is the one of the state the login is in.
    pub fn issue(&self, store: &mut TokenStore, prepared: PreparedLogin, continuation: &str) -> (outcome:
        LoginOutcome)
        ensures
            match (prepared.state, prepared.token, prepared.batch) {
                (AuthState::PasswordChecked, Some(token), Some(batch)) => {
                    &&& outcome.state == AuthState::TokenIssued
                    &&& outcome.trace@ == prepared.trace@.push(AuthState::TokenIssued)
                    &&& outcome.token == Some(token)
                    &&& outcome.batch matches Some(committed) && committed@ == batch@
                    &&& final(store)@ == apply_batch(old(store)@, batch@)
                    &&& outcome.response@ == response_of(
                        AuthState::TokenIssued,
                        token@,
                        self.pattern(),
                        continuation@,
                    )
                },
                _ => {
                    &&& outcome.state == prepared.state
                    &&& outcome.trace == prepared.trace
                    &&& outcome.token is None
                    &&& outcome.batch is None
                    &&& final(store)@ == old(store)@
                    &&& outcome.response@ == response_of(
                        prepared.state,
                        Seq::<char>::empty(),
                        self.pattern(),
                        continuation@,
                    )
                },
            },
    {
        let PreparedLogin { state, trace, token, batch } = prepared;
        match (state, token, batch) {
            (AuthState::PasswordChecked, Some(token), Some(batch)) => {
                let mut trace = trace;
                let committed = batch.duplicate();
                store.commit(batch);
                trace.push(AuthState::TokenIssued);
                let response = self.respond(AuthState::TokenIssued, token.as_str(), continuation);
                LoginOutcome {
                    state: AuthState::TokenIssued,
                    trace,
                    token: Some(token),
                    batch: Some(committed),
                    response,
                }
            },
            _ => {
                let response = self.respond(state, "", continuation);
                proof {
                    reveal_strlit("");
                }
                assert(""@ =~= Seq::<char>::empty());
                LoginOutcome { state, trace, token: None, batch: None, response }
            },
        }
    }

    /// Runs a login to its end with `token` as the token to issue. The
    /// password is checked against the stored credential of the entry that
    /// was found; only where it matches is the record of `user_name` rotated
    /// to `token`. In every other case the store is left as it was.
    pub fn login_with(
        &self,
        store: &mut TokenStore,
        user_name: &str,
        given_password: &str,
        dn: &str,
        continuation: &str,
        reply: DirectoryReply,
        token: String,
    ) -> (outcome: LoginOutcome)
        ensures
            outcome.state == final_state(reply, given_password.spec_bytes()),
            is_terminal(outcome.state),
            valid_trace(outcome.trace@),
            outcome.trace@.last() == outcome.state,
            outcome.response@ == response_of(
                outcome.state,
                token@,
                self.pattern(),
                continuation@,
            ),
            outcome.state == AuthState::TokenIssued ==> {
                &&& outcome.token == Some(token)
                &&& final(store)@ == rotated(old(store)@, user_name@, dn@, token@)
                &&& resolve(final(store)@, token@) == Some((user_name@, dn@))
                &&& outcome.batch matches Some(batch) && batch@ == rotation_ops(
                    current_token(old(store)@, user_name@),
                    user_name@,
                    dn@,
                    token@,
                )
            },
            outcome.state != AuthState::TokenIssued ==> {
                &&& outcome.token is None
                &&& outcome.batch is None
                &&& final(store)@ == old(store)@
            },
            records_complete(old(store)@) && is_identity(user_name@) && is_token(token@)
                ==> records_complete(final(store)@),
    {
        let prepared = self.prepare_with(store, user_name, given_password, dn, reply, token);
        proof {
            crate::token_store::lemma_rotated_token_resolves(store@, user_name@, dn@, token@);
            if records_complete(store@) && is_identity(user_name@) && is_token(token@) {
                crate::token_store::lemma_rotation_keeps_records_complete(
                    store@,
                    user_name@,
                    dn@,
                    token@,
                );
            }
        }
        self.issue(store, prepared, continuation)
    }

    /// Runs a login to its end, issuing a fresh token where the password
    /// matches.
    pub fn login(
        &self,
        store: &mut TokenStore,
        user_name: &str,
        given_password: &str,
        dn: &str,
        continuation: &str,
        reply: DirectoryReply,
    ) -> (outcome: LoginOutcome)
        ensures
            outcome.state == final_state(reply, given_password.spec_bytes()),
            is_terminal(outcome.state),
            valid_trace(outcome.trace@),
            outcome.trace@.last() == outcome.state,
            outcome.response@ == response_of(
                outcome.state,
                token_text(outcome.token),
                self.pattern(),
                continuation@,
            ),
            outcome.state == AuthState::TokenIssued ==> {
                &&& outcome.token matches Some(token)
                &&& is_token(token@)
                &&& final(store)@ == rotated(old(store)@, user_name@, dn@, token@)
                &&& resolve(final(store)@, token@) == Some((user_name@, dn@))
                &&& outcome.batch matches Some(batch) && batch@ == rotation_ops(
                    current_token(old(store)@, user_name@),
                    user_name@,
                    dn@,
                    token@,
                )
            },
            outcome.state != AuthState::TokenIssued ==> {
                &&& outcome.token is None
                &&& outcome.batch is None
                &&& final(store)@ == old(store)@
            },
            records_complete(old(store)@) && is_identity(user_name@) ==> records_complete(
                final(store)@,
            ),
    {
        let token = generate();
        self.login_with(store, user_name, given_password, dn, continuation, reply, token)
    }
}

} // verus!

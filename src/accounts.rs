use vstd::prelude::*;
use crate::guard::lookup_view;
use crate::model::{new_user, new_user_spec, ApiError, StoreError, User, UserV};
use crate::response::{error_json, error_response, object_json_spec, status_of, JsonResponse};
use crate::session::{landing_path, session_cookies_spec, session_response, SessionCookie, SESSION_LIFETIME_SECS};

verus! {

/// The token that signing in hands back, from the store's answer to the
/// lookup by name and password: the stored token, never a new one.
pub open spec fn login_outcome(
    name: Seq<char>,
    password: Seq<char>,
    found: Result<Option<UserV>, StoreError>,
) -> Result<Seq<char>, ApiError> {
    match found {
        Err(_) => Err(ApiError::Store),
        Ok(None) => Err(ApiError::WrongCredentials),
        Ok(Some(u)) => if u.name == name && u.password == password {
            Ok(u.token)
        } else {
            Err(ApiError::WrongCredentials)
        },
    }
}

/// Whether registration may go on, from the store's answer to "is a user
/// with this name stored?".
pub open spec fn registration_outcome(name_taken: Result<bool, StoreError>) -> Result<(), ApiError> {
    match name_taken {
        Err(_) => Err(ApiError::Store),
        Ok(true) => Err(ApiError::NameTaken),
        Ok(false) => Ok(()),
    }
}

/// Signs a user in: returns the token stored with the user that the lookup
/// by `name` and `password` found.
pub fn login_token(name: &String, password: &String, found: Result<Option<User>, StoreError>) -> (r: Result<String, ApiError>)
    ensures
        match r {
            Ok(t) => login_outcome(name@, password@, lookup_view(found)) == Ok::<Seq<char>, ApiError>(t@),
            Err(e) => login_outcome(name@, password@, lookup_view(found)) == Err::<Seq<char>, ApiError>(e),
        },
{
    match found {
        Err(_) => Err(ApiError::Store),
        Ok(None) => Err(ApiError::WrongCredentials),
        Ok(Some(u)) => {
            if u.name == *name && u.password == *password {
                Ok(u.token)
            } else {
                Err(ApiError::WrongCredentials)
            }
        },
    }
}

/// Decides whether a registration may go on.
pub fn check_registration(name_taken: Result<bool, StoreError>) -> (r: Result<(), ApiError>)
    ensures
        r == registration_outcome(name_taken),
{
    match name_taken {
        Err(_) => Err(ApiError::Store),
        Ok(true) => Err(ApiError::NameTaken),
        Ok(false) => Ok(()),
    }
}

/// The reply to a sign-in or a registration: the session for `name` and
/// the token, or the failure.
pub fn session_reply(name: &str, token: Result<String, ApiError>, now: i64) -> (r: JsonResponse)
    requires
        now <= i64::MAX - SESSION_LIFETIME_SECS,
    ensures
        match token {
            Ok(t) => {
                &&& r.status == 200
                &&& r.json@ == object_json_spec("redirectPath"@, landing_path())
                &&& r.cookies@.map_values(|c: SessionCookie| c@) == session_cookies_spec(name@, t@, now as int)
            },
            Err(e) => r.status == status_of(e) && r.json@ == error_json(e) && r.cookies@.len() == 0,
        },
{
    match token {
        Ok(t) => session_response(name, t.as_str(), now),
        Err(e) => error_response(e),
    }
}

/// Where a registration stands.
#[derive(PartialEq, Eq, Structural, Clone, Copy, Debug)]
pub enum RegisterStage {
    CheckingName,
    Inserting,
    Finished,
}

/// A registration in progress, with the token drawn for the new session.
pub struct Registration {
    pub name: String,
    pub password: String,
    pub token: String,
    pub stage: RegisterStage,
}

pub ghost struct RegistrationV {
    pub name: Seq<char>,
    pub password: Seq<char>,
    pub token: Seq<char>,
    pub stage: RegisterStage,
}

impl View for Registration {
    type V = RegistrationV;

    open spec fn view(&self) -> RegistrationV {
        RegistrationV { name: self.name@, password: self.password@, token: self.token@, stage: self.stage }
    }
}

/// What the document store said in reply to the last action.
pub enum RegisterEvent {
    /// Whether a user with the name is stored.
    NameFound(Result<bool, StoreError>),
    /// The insert of the new user.
    UserInserted(Result<(), StoreError>),
}

pub ghost enum RegisterEventV {
    NameFound(Result<bool, StoreError>),
    UserInserted(Result<(), StoreError>),
}

impl View for RegisterEvent {
    type V = RegisterEventV;

    open spec fn view(&self) -> RegisterEventV {
        match self {
            RegisterEvent::NameFound(r) => RegisterEventV::NameFound(*r),
            RegisterEvent::UserInserted(r) => RegisterEventV::UserInserted(*r),
        }
    }
}

/// What the caller is to do next.
pub enum RegisterAction {
    /// Ask whether a user with this name is stored.
    FindName(String),
    /// Insert this user.
    InsertUser(User),
    /// Stop and reply: the session token, or the failure.
    Finish(Result<String, ApiError>),
}

pub ghost enum RegisterActionV {
    FindName(Seq<char>),
    InsertUser(UserV),
    Finish(Result<Seq<char>, ApiError>),
}

impl View for RegisterAction {
    type V = RegisterActionV;

    open spec fn view(&self) -> RegisterActionV {
        match self {
            RegisterAction::FindName(n) => RegisterActionV::FindName(n@),
            RegisterAction::InsertUser(u) => RegisterActionV::InsertUser(u@),
            RegisterAction::Finish(r) => RegisterActionV::Finish(
                match r {
                    Ok(t) => Ok(t@),
                    Err(e) => Err(*e),
                },
            ),
        }
    }
}

pub open spec fn register_fits(stage: RegisterStage, e: RegisterEventV) -> bool {
    match (stage, e) {
        (RegisterStage::CheckingName, RegisterEventV::NameFound(_)) => true,
        (RegisterStage::Inserting, RegisterEventV::UserInserted(_)) => true,
        _ => false,
    }
}

/// One step of a registration. The name is checked before anything is
/// written, so a taken name leaves the stored user as it was; the token is
/// handed back only once the user is stored.
pub open spec fn register_transition(s: RegistrationV, e: RegisterEventV) -> (RegistrationV, RegisterActionV) {
    match e {
        RegisterEventV::NameFound(taken) => match registration_outcome(taken) {
            Ok(_) => (
                RegistrationV { stage: RegisterStage::Inserting, ..s },
                RegisterActionV::InsertUser(new_user_spec(s.name, s.password, s.token)),
            ),
            Err(err) => (RegistrationV { stage: RegisterStage::Finished, ..s }, RegisterActionV::Finish(Err(err))),
        },
        RegisterEventV::UserInserted(inserted) => (
            RegistrationV { stage: RegisterStage::Finished, ..s },
            RegisterActionV::Finish(
                match inserted {
                    Ok(_) => Ok(s.token),
                    Err(_) => Err(ApiError::Store),
                },
            ),
        ),
    }
}

impl Registration {
    /// Starts registering `name` with `password` under a freshly issued
    /// `token`; the first action asks whether the name is taken.
    pub fn start(name: String, password: String, token: String) -> (r: (Registration, RegisterAction))
        ensures
            r.0@ == (RegistrationV { name: name@, password: password@, token: token@, stage: RegisterStage::CheckingName }),
            r.1@ == RegisterActionV::FindName(name@),
    {
        let action = RegisterAction::FindName(name.clone());
        (Registration { name, password, token, stage: RegisterStage::CheckingName }, action)
    }

    /// Whether `ev` answers the action that this registration asked for last.
    pub fn accepts(&self, ev: &RegisterEvent) -> (r: bool)
        ensures
            r == register_fits(self.stage, ev@),
    {
        match (self.stage, ev) {
            (RegisterStage::CheckingName, RegisterEvent::NameFound(_)) => true,
            (RegisterStage::Inserting, RegisterEvent::UserInserted(_)) => true,
            _ => false,
        }
    }

    /// Takes the reply to the last action and returns the next action.
    pub fn step(&mut self, ev: RegisterEvent) -> (a: RegisterAction)
        requires
            register_fits(old(self).stage, ev@),
        ensures
            (final(self)@, a@) == register_transition(old(self)@, ev@),
    {
        match ev {
            RegisterEvent::NameFound(taken) => match check_registration(taken) {
                Ok(_) => {
                    self.stage = RegisterStage::Inserting;
                    RegisterAction::InsertUser(new_user(self.name.as_str(), self.password.as_str(), self.token.as_str()))
                },
                Err(err) => {
                    self.stage = RegisterStage::Finished;
                    RegisterAction::Finish(Err(err))
                },
            },
            RegisterEvent::UserInserted(inserted) => {
                self.stage = RegisterStage::Finished;
                match inserted {
                    Ok(_) => RegisterAction::Finish(Ok(self.token.clone())),
                    Err(_) => RegisterAction::Finish(Err(ApiError::Store)),
                }
            },
        }
    }
}

} // verus!

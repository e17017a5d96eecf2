//! What the server keeps of a session.
use vstd::prelude::*;

use crate::decode::{optional_info_view, ImplementationInfo, InfoView};
use crate::json::{Json, JsonView};

verus! {

/// How far a session has come: nothing has been said, the client has asked to
/// begin, or it has confirmed.
#[derive(Debug, Clone, Copy, PartialEq, Eq, Structural)]
pub enum InitState {
    Uninitialized,
    Initializing,
    Initialized,
}

impl Default for InitState {
    fn default() -> (state: InitState)
        ensures
            state == InitState::Uninitialized,
    {
        InitState::Uninitialized
    }
}

/// The state of a session: how far it has come, what the client said of itself,
/// and the level of logging that it asked for.
#[derive(Debug)]
pub struct SessionState {
    pub init_state: InitState,
    pub client_info: Option<ImplementationInfo>,
    pub client_capabilities: Json,
    pub log_level: String,
}

/// What a [`SessionState`] is.
pub struct SessionView {
    pub init_state: InitState,
    pub client_info: Option<InfoView>,
    pub client_capabilities: JsonView,
    pub log_level: Seq<char>,
}

impl View for SessionState {
    type V = SessionView;

    open spec fn view(&self) -> SessionView {
        SessionView {
            init_state: self.init_state,
            client_info: optional_info_view(self.client_info),
            client_capabilities: self.client_capabilities@,
            log_level: self.log_level@,
        }
    }
}

impl SessionView {
    /// A session in which nothing has been said.
    pub open spec fn fresh() -> SessionView {
        SessionView {
            init_state: InitState::Uninitialized,
            client_info: None,
            client_capabilities: JsonView::Null,
            log_level: Seq::empty(),
        }
    }
}

impl Default for SessionState {
    fn default() -> (state: SessionState)
        ensures
            state@ == SessionView::fresh(),
    {
        SessionState {
            init_state: InitState::Uninitialized,
            client_info: None,
            client_capabilities: Json::Null,
            log_level: String::new(),
        }
    }
}

} // verus!

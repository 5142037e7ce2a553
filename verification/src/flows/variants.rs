//! The flow types of the UI nodes and submitted forms, and the form action
//! of the Kratos flows.
use vstd::prelude::*;
use crate::domain::{
    FlowType, UiContainer, LoginUiNode, RegistrationUiNode, RecoveryUiNode, VerificationUiNode,
    SettingsUiNode, ConsentUiNode, ConsentSubmitNode, ErrorUiNode,
};

verus! {

/// A node that a flow renders, and the flow it belongs to.
pub trait UiNodeVariant: Sized {
    spec fn spec_flow_type() -> FlowType;

    fn flow_type() -> (t: FlowType)
        ensures
            t == Self::spec_flow_type(),
    ;
}

/// A form that the browser submits, and the flow it belongs to.
pub trait SubmitNodeVariant: Sized {
    spec fn spec_flow_type() -> FlowType;

    fn flow_type() -> (t: FlowType)
        ensures
            t == Self::spec_flow_type(),
    ;
}

/// A Kratos flow with a form: its action can be read and replaced.
pub trait FormFlow: UiNodeVariant {
    spec fn spec_action(&self) -> Seq<char>;

    /// `other` is `self` with at most its form action changed.
    spec fn differs_only_in_action(&self, other: &Self) -> bool;

    fn action(&self) -> (a: &str)
        ensures
            a@ == self.spec_action(),
    ;

    fn set_action(self, action: String) -> (r: Self)
        ensures
            r.spec_action() == action@,
            self.differs_only_in_action(&r),
    ;
}

impl UiNodeVariant for LoginUiNode {
    open spec fn spec_flow_type() -> FlowType {
        FlowType::Login
    }

    fn flow_type() -> (t: FlowType) {
        FlowType::Login
    }
}

impl UiNodeVariant for RegistrationUiNode {
    open spec fn spec_flow_type() -> FlowType {
        FlowType::Registration
    }

    fn flow_type() -> (t: FlowType) {
        FlowType::Registration
    }
}

impl UiNodeVariant for RecoveryUiNode {
    open spec fn spec_flow_type() -> FlowType {
        FlowType::Recovery
    }

    fn flow_type() -> (t: FlowType) {
        FlowType::Recovery
    }
}

impl UiNodeVariant for VerificationUiNode {
    open spec fn spec_flow_type() -> FlowType {
        FlowType::Verification
    }

    fn flow_type() -> (t: FlowType) {
        FlowType::Verification
    }
}

impl UiNodeVariant for SettingsUiNode {
    open spec fn spec_flow_type() -> FlowType {
        FlowType::Settings
    }

    fn flow_type() -> (t: FlowType) {
        FlowType::Settings
    }
}

impl UiNodeVariant for ConsentUiNode {
    open spec fn spec_flow_type() -> FlowType {
        FlowType::Consent
    }

    fn flow_type() -> (t: FlowType) {
        FlowType::Consent
    }
}

/// The error page is registered under the consent flow type.
impl UiNodeVariant for ErrorUiNode {
    open spec fn spec_flow_type() -> FlowType {
        FlowType::Consent
    }

    fn flow_type() -> (t: FlowType) {
        FlowType::Consent
    }
}

impl SubmitNodeVariant for ConsentSubmitNode {
    open spec fn spec_flow_type() -> FlowType {
        FlowType::Consent
    }

    fn flow_type() -> (t: FlowType) {
        FlowType::Consent
    }
}

impl FormFlow for LoginUiNode {
    open spec fn spec_action(&self) -> Seq<char> {
        self.ui.action@
    }

    open spec fn differs_only_in_action(&self, other: &Self) -> bool {
        *other == (LoginUiNode { ui: UiContainer { action: other.ui.action, ..self.ui }, ..*self })
    }

    fn action(&self) -> (a: &str) {
        self.ui.action.as_str()
    }

    fn set_action(self, action: String) -> (r: Self) {
        let mut n = self;
        n.ui.action = action;
        n
    }
}

impl FormFlow for RegistrationUiNode {
    open spec fn spec_action(&self) -> Seq<char> {
        self.ui.action@
    }

    open spec fn differs_only_in_action(&self, other: &Self) -> bool {
        *other == (RegistrationUiNode { ui: UiContainer { action: other.ui.action, ..self.ui }, ..*self })
    }

    fn action(&self) -> (a: &str) {
        self.ui.action.as_str()
    }

    fn set_action(self, action: String) -> (r: Self) {
        let mut n = self;
        n.ui.action = action;
        n
    }
}

impl FormFlow for RecoveryUiNode {
    open spec fn spec_action(&self) -> Seq<char> {
        self.ui.action@
    }

    open spec fn differs_only_in_action(&self, other: &Self) -> bool {
        *other == (RecoveryUiNode { ui: UiContainer { action: other.ui.action, ..self.ui }, ..*self })
    }

    fn action(&self) -> (a: &str) {
        self.ui.action.as_str()
    }

    fn set_action(self, action: String) -> (r: Self) {
        let mut n = self;
        n.ui.action = action;
        n
    }
}

impl FormFlow for VerificationUiNode {
    open spec fn spec_action(&self) -> Seq<char> {
        self.ui.action@
    }

    open spec fn differs_only_in_action(&self, other: &Self) -> bool {
        *other == (VerificationUiNode { ui: UiContainer { action: other.ui.action, ..self.ui }, ..*self })
    }

    fn action(&self) -> (a: &str) {
        self.ui.action.as_str()
    }

    fn set_action(self, action: String) -> (r: Self) {
        let mut n = self;
        n.ui.action = action;
        n
    }
}

impl FormFlow for SettingsUiNode {
    open spec fn spec_action(&self) -> Seq<char> {
        self.ui.action@
    }

    open spec fn differs_only_in_action(&self, other: &Self) -> bool {
        *other == (SettingsUiNode { ui: UiContainer { action: other.ui.action, ..self.ui }, ..*self })
    }

    fn action(&self) -> (a: &str) {
        self.ui.action.as_str()
    }

    fn set_action(self, action: String) -> (r: Self) {
        let mut n = self;
        n.ui.action = action;
        n
    }
}

} // verus!

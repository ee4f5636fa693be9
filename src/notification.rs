use vstd::prelude::*;

verus! {

/// How a notification is to be presented.
#[derive(Debug, Clone, Copy, PartialEq, Eq, Structural)]
pub enum NotificationType {
    Error,
    Warning,
    Info,
    Success,
}

/// A short message for the user.
#[derive(Debug, Clone, PartialEq, Eq)]
pub struct Notification {
    kind: NotificationType,
    heading: String,
    body: Option<String>,
}

impl Notification {
    pub closed spec fn spec_kind(&self) -> NotificationType {
        self.kind
    }

    pub closed spec fn spec_heading(&self) -> Seq<char> {
        self.heading@
    }

    /// Whether the notification has a body besides its heading.
    pub closed spec fn spec_has_body(&self) -> bool {
        self.body is Some
    }

    /// A success notice with the given heading and no body.
    pub fn success(heading: String) -> (r: Notification)
        ensures
            r.spec_kind() == NotificationType::Success,
            r.spec_heading() == heading@,
            !r.spec_has_body(),
    {
        Notification { kind: NotificationType::Success, heading, body: None }
    }

    /// An error notice with the given heading and no body.
    pub fn error(heading: String) -> (r: Notification)
        ensures
            r.spec_kind() == NotificationType::Error,
            r.spec_heading() == heading@,
            !r.spec_has_body(),
    {
        Notification { kind: NotificationType::Error, heading, body: None }
    }

    pub fn kind(&self) -> (r: NotificationType)
        ensures
            r == self.spec_kind(),
    {
        self.kind
    }

    pub fn heading(&self) -> (r: &String)
        ensures
            r@ == self.spec_heading(),
    {
        &self.heading
    }

    pub fn body(&self) -> (r: Option<&String>)
        ensures
            r is Some == self.spec_has_body(),
    {
        match &self.body {
            Some(b) => Some(b),
            None => None,
        }
    }
}

} // verus!

use vstd::prelude::*;

verus! {

/// Standard `amqp:*` error conditions.
#[derive(Debug, Clone, Copy, PartialEq, Eq, Structural)]
pub enum AmqpErrorKind {
    InternalError,
    NotFound,
    UnauthorizedAccess,
    DecodeError,
    ResourceLimitExceeded,
    NotAllowed,
    InvalidField,
    NotImplemented,
    ResourceLocked,
    PreconditionFailed,
    ResourceDeleted,
    IllegalState,
    FrameSizeTooSmall,
}

/// Standard `amqp:connection:*` error conditions.
#[derive(Debug, Clone, Copy, PartialEq, Eq, Structural)]
pub enum ConnectionErrorKind {
    ConnectionForced,
    FramingError,
    Redirect,
}

/// Standard `amqp:session:*` error conditions.
#[derive(Debug, Clone, Copy, PartialEq, Eq, Structural)]
pub enum SessionErrorKind {
    WindowViolation,
    ErrantLink,
    HandleInUse,
    UnattachedHandle,
}

/// Standard `amqp:link:*` error conditions.
#[derive(Debug, Clone, Copy, PartialEq, Eq, Structural)]
pub enum LinkErrorKind {
    DetachForced,
    TransferLimitExceeded,
    MessageSizeExceeded,
    Redirect,
    Stolen,
}

/// The condition symbol of a wire error record.
#[derive(Debug, PartialEq)]
pub enum ErrorCondition {
    AmqpError(AmqpErrorKind),
    ConnectionError(ConnectionErrorKind),
    SessionError(SessionErrorKind),
    LinkError(LinkErrorKind),
    Custom(String),
}

impl ErrorCondition {
    /// An identical condition.
    pub fn duplicate(&self) -> (r: Self)
        ensures
            r == *self,
    {
        match self {
            ErrorCondition::AmqpError(k) => ErrorCondition::AmqpError(*k),
            ErrorCondition::ConnectionError(k) => ErrorCondition::ConnectionError(*k),
            ErrorCondition::SessionError(k) => ErrorCondition::SessionError(*k),
            ErrorCondition::LinkError(k) => ErrorCondition::LinkError(*k),
            ErrorCondition::Custom(s) => ErrorCondition::Custom(s.clone()),
        }
    }
}

/// Copy of a field map, entry by entry.
fn copy_fields(v: &Vec<(String, String)>) -> (r: Vec<(String, String)>)
    ensures
        r@ == v@,
{
    let mut r: Vec<(String, String)> = Vec::new();
    let mut i: usize = 0;
    while i < v.len()
        invariant
            i <= v.len(),
            r@ == v@.subrange(0, i as int),
        decreases v.len() - i,
    {
        let (a, b) = &v[i];
        r.push((a.clone(), b.clone()));
        proof {
            assert(v@.subrange(0, i + 1) == v@.subrange(0, i as int).push(v@[i as int]));
        }
        i = i + 1;
    }
    proof {
        assert(v@.subrange(0, v@.len() as int) == v@);
    }
    r
}

/// The error record carried by Close, End and Detach: a condition, an
/// optional description and an optional field map.
#[derive(Debug, PartialEq)]
pub struct WireError {
    pub condition: ErrorCondition,
    pub description: Option<String>,
    pub info: Option<Vec<(String, String)>>,
}

/// Two optional field maps with the same entries.
pub open spec fn same_info(a: Option<Vec<(String, String)>>, b: Option<Vec<(String, String)>>) -> bool {
    match (a, b) {
        (None, None) => true,
        (Some(x), Some(y)) => x@ == y@,
        _ => false,
    }
}

impl WireError {
    /// Same condition, description and field entries.
    pub open spec fn same(&self, o: &WireError) -> bool {
        &&& self.condition == o.condition
        &&& self.description == o.description
        &&& same_info(self.info, o.info)
    }

    /// A record equal to this one, field by field.
    pub fn duplicate(&self) -> (r: Self)
        ensures
            r.same(self),
    {
        let description = match &self.description {
            Some(d) => Some(d.clone()),
            None => None,
        };
        let info = match &self.info {
            Some(f) => Some(copy_fields(f)),
            None => None,
        };
        WireError { condition: self.condition.duplicate(), description, info }
    }
}

/// Two optional wire records that are both absent or the same.
pub open spec fn same_opt(a: Option<WireError>, b: Option<WireError>) -> bool {
    match (a, b) {
        (None, None) => true,
        (Some(x), Some(y)) => x.same(&y),
        _ => false,
    }
}

fn duplicate_opt(e: &Option<WireError>) -> (r: Option<WireError>)
    ensures
        same_opt(r, *e),
{
    match e {
        Some(w) => Some(w.duplicate()),
        None => None,
    }
}

/// Errors surfaced by the transport to connection and session users.
#[derive(Debug, PartialEq)]
pub enum AmqpTransportError {
    /// The peer's bytes could not be decoded; the text is the codec's report.
    Codec(String),
    /// The local session table is full.
    TooManyChannels,
    /// The transport ended or a write failed.
    Disconnected,
    /// No frame arrived within twice the local idle timeout.
    Timeout,
    /// The peer closed the connection.
    Closed(Option<WireError>),
    /// The session has ended.
    SessionEnded(Option<WireError>),
    /// The link has been detached.
    LinkDetached(Option<WireError>),
}

impl AmqpTransportError {
    /// Same variant with the same payload.
    pub open spec fn same(&self, o: &AmqpTransportError) -> bool {
        match (*self, *o) {
            (AmqpTransportError::Codec(a), AmqpTransportError::Codec(b)) => a == b,
            (AmqpTransportError::TooManyChannels, AmqpTransportError::TooManyChannels) => true,
            (AmqpTransportError::Disconnected, AmqpTransportError::Disconnected) => true,
            (AmqpTransportError::Timeout, AmqpTransportError::Timeout) => true,
            (AmqpTransportError::Closed(a), AmqpTransportError::Closed(b)) => same_opt(a, b),
            (AmqpTransportError::SessionEnded(a), AmqpTransportError::SessionEnded(b)) => same_opt(
                a,
                b,
            ),
            (AmqpTransportError::LinkDetached(a), AmqpTransportError::LinkDetached(b)) => same_opt(
                a,
                b,
            ),
            _ => false,
        }
    }

    /// An error equal to this one, payload included.
    pub fn duplicate(&self) -> (r: Self)
        ensures
            r.same(self),
    {
        match self {
            AmqpTransportError::Codec(s) => AmqpTransportError::Codec(s.clone()),
            AmqpTransportError::TooManyChannels => AmqpTransportError::TooManyChannels,
            AmqpTransportError::Disconnected => AmqpTransportError::Disconnected,
            AmqpTransportError::Timeout => AmqpTransportError::Timeout,
            AmqpTransportError::Closed(e) => AmqpTransportError::Closed(duplicate_opt(e)),
            AmqpTransportError::SessionEnded(e) => AmqpTransportError::SessionEnded(
                duplicate_opt(e),
            ),
            AmqpTransportError::LinkDetached(e) => AmqpTransportError::LinkDetached(
                duplicate_opt(e),
            ),
        }
    }
}

/// Builder of connection- and session-level error records.
#[derive(Debug, PartialEq)]
pub struct AmqpError {
    pub condition: ErrorCondition,
    pub description: Option<String>,
    pub info: Option<Vec<(String, String)>>,
}

impl AmqpError {
    /// An error with a standard `amqp:*` condition and nothing else.
    pub fn new(err: AmqpErrorKind) -> (r: Self)
        ensures
            r.condition == ErrorCondition::AmqpError(err),
            r.description.is_none(),
            r.info.is_none(),
    {
        AmqpError { condition: ErrorCondition::AmqpError(err), description: None, info: None }
    }

    /// An error with any condition and nothing else.
    pub fn with_error(err: ErrorCondition) -> (r: Self)
        ensures
            r.condition == err,
            r.description.is_none(),
            r.info.is_none(),
    {
        AmqpError { condition: err, description: None, info: None }
    }

    pub fn internal_error() -> (r: Self)
        ensures
            r == AmqpError::spec_of(AmqpErrorKind::InternalError),
    {
        Self::new(AmqpErrorKind::InternalError)
    }

    pub fn not_found() -> (r: Self)
        ensures
            r == AmqpError::spec_of(AmqpErrorKind::NotFound),
    {
        Self::new(AmqpErrorKind::NotFound)
    }

    pub fn unauthorized_access() -> (r: Self)
        ensures
            r == AmqpError::spec_of(AmqpErrorKind::UnauthorizedAccess),
    {
        Self::new(AmqpErrorKind::UnauthorizedAccess)
    }

    pub fn decode_error() -> (r: Self)
        ensures
            r == AmqpError::spec_of(AmqpErrorKind::DecodeError),
    {
        Self::new(AmqpErrorKind::DecodeError)
    }

    pub fn invalid_field() -> (r: Self)
        ensures
            r == AmqpError::spec_of(AmqpErrorKind::InvalidField),
    {
        Self::new(AmqpErrorKind::InvalidField)
    }

    pub fn not_allowed() -> (r: Self)
        ensures
            r == AmqpError::spec_of(AmqpErrorKind::NotAllowed),
    {
        Self::new(AmqpErrorKind::NotAllowed)
    }

    pub fn not_implemented() -> (r: Self)
        ensures
            r == AmqpError::spec_of(AmqpErrorKind::NotImplemented),
    {
        Self::new(AmqpErrorKind::NotImplemented)
    }

    /// The error that `new(kind)` builds.
    pub open spec fn spec_of(kind: AmqpErrorKind) -> AmqpError {
        AmqpError { condition: ErrorCondition::AmqpError(kind), description: None, info: None }
    }

    /// Sets the description from text.
    pub fn description(self, text: &str) -> (r: Self)
        ensures
            r.condition == self.condition,
            r.info == self.info,
            r.description matches Some(d) && d@ == text@,
    {
        AmqpError { description: Some(text.to_string()), ..self }
    }

    /// Sets the description.
    pub fn set_description(self, text: String) -> (r: Self)
        ensures
            r == (AmqpError { description: Some(text), ..self }),
    {
        AmqpError { description: Some(text), ..self }
    }

    /// The wire record with this condition, description and field map.
    pub fn into_error(self) -> (r: WireError)
        ensures
            r == (WireError {
                condition: self.condition,
                description: self.description,
                info: self.info,
            }),
    {
        WireError { condition: self.condition, description: self.description, info: self.info }
    }
}

/// Builder of link-level error records.
#[derive(Debug, PartialEq)]
pub struct LinkError {
    pub condition: ErrorCondition,
    pub description: Option<String>,
    pub info: Option<Vec<(String, String)>>,
}

impl LinkError {
    /// An error with any condition and nothing else.
    pub fn new(error: ErrorCondition) -> (r: Self)
        ensures
            r.condition == error,
            r.description.is_none(),
            r.info.is_none(),
    {
        LinkError { condition: error, description: None, info: None }
    }

    /// `amqp:link:detach-forced`.
    pub fn force_detach() -> (r: Self)
        ensures
            r.condition == ErrorCondition::LinkError(LinkErrorKind::DetachForced),
            r.description.is_none(),
            r.info.is_none(),
    {
        LinkError {
            condition: ErrorCondition::LinkError(LinkErrorKind::DetachForced),
            description: None,
            info: None,
        }
    }

    /// `amqp:link:redirect`.
    pub fn redirect() -> (r: Self)
        ensures
            r.condition == ErrorCondition::LinkError(LinkErrorKind::Redirect),
            r.description.is_none(),
            r.info.is_none(),
    {
        LinkError {
            condition: ErrorCondition::LinkError(LinkErrorKind::Redirect),
            description: None,
            info: None,
        }
    }

    /// Sets the description from fixed text.
    pub fn text(self, text: &'static str) -> (r: Self)
        ensures
            r.condition == self.condition,
            r.info == self.info,
            r.description matches Some(d) && d@ == text@,
    {
        LinkError { description: Some(text.to_string()), ..self }
    }

    /// Sets the description from text.
    pub fn description(self, text: &str) -> (r: Self)
        ensures
            r.condition == self.condition,
            r.info == self.info,
            r.description matches Some(d) && d@ == text@,
    {
        LinkError { description: Some(text.to_string()), ..self }
    }

    /// Sets the description.
    pub fn set_description(self, text: String) -> (r: Self)
        ensures
            r == (LinkError { description: Some(text), ..self }),
    {
        LinkError { description: Some(text), ..self }
    }

    /// Sets the field map.
    pub fn fields(self, fields: Vec<(String, String)>) -> (r: Self)
        ensures
            r == (LinkError { info: Some(fields), ..self }),
    {
        LinkError { info: Some(fields), ..self }
    }

    /// The wire record with this condition, description and field map.
    pub fn into_error(self) -> (r: WireError)
        ensures
            r == (WireError {
                condition: self.condition,
                description: self.description,
                info: self.info,
            }),
    {
        WireError { condition: self.condition, description: self.description, info: self.info }
    }
}

} // verus!

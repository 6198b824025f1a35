//! What a connection reports about itself, and the accessors that read it.

use vstd::prelude::*;
use crate::errors::{NoActiveSocket, ProtocolMismatch};
use crate::foreign::{
    array_texts, optional_text, read_array, read_optional, read_required, same_text, text_of,
};
use crate::ssl::{Attribute, AttributeView};
use crate::transaction;

verus! {

/// The coarse state of a connection.
#[derive(Clone, Copy, Debug, PartialEq, Eq, Structural)]
pub enum Status {
    /// The connection is ready.
    Okay,
    /// The connection procedure has failed.
    Bad,
    /// Waiting for the connection to be made.
    Started,
    /// Connection made; waiting to send.
    Made,
    /// Waiting for a response from the server.
    AwaitingResponse,
    /// Received authentication; waiting for backend start-up to finish.
    AuthOk,
    /// Negotiating environment-driven parameter settings.
    Setenv,
    /// Negotiating SSL encryption.
    SslStartup,
    /// Internal state: a connection attempt is needed.
    Needed,
    /// Checking whether the connection can handle write transactions.
    CheckWritable,
    /// Consuming any remaining response messages.
    Consume,
    /// Negotiating GSSAPI encryption.
    GssStartup,
    /// Checking whether the host is an acceptable target.
    CheckTarget,
    /// Checking whether the server is in standby mode.
    CheckStandby,
    /// The connection object exists and nothing was done with it yet.
    Allocated,
    /// An authentication exchange is in progress.
    Authenticating,
}

/// The state that a lifecycle code stands for, if it stands for one.
pub open spec fn status_of(code: int) -> Option<Status> {
    if code == 0 {
        Some(Status::Okay)
    } else if code == 1 {
        Some(Status::Bad)
    } else if code == 2 {
        Some(Status::Started)
    } else if code == 3 {
        Some(Status::Made)
    } else if code == 4 {
        Some(Status::AwaitingResponse)
    } else if code == 5 {
        Some(Status::AuthOk)
    } else if code == 6 {
        Some(Status::Setenv)
    } else if code == 7 {
        Some(Status::SslStartup)
    } else if code == 8 {
        Some(Status::Needed)
    } else if code == 9 {
        Some(Status::CheckWritable)
    } else if code == 10 {
        Some(Status::Consume)
    } else if code == 11 {
        Some(Status::GssStartup)
    } else if code == 12 {
        Some(Status::CheckTarget)
    } else if code == 13 {
        Some(Status::CheckStandby)
    } else if code == 14 {
        Some(Status::Allocated)
    } else if code == 15 {
        Some(Status::Authenticating)
    } else {
        None
    }
}

/// Whether `code` is one of the lifecycle codes.
pub open spec fn is_known_code(code: int) -> bool {
    0 <= code <= 15
}

/// What translating a lifecycle code gives: its state, or the code back as a
/// mismatch.
pub open spec fn translated(code: i32) -> Result<Status, ProtocolMismatch> {
    match status_of(code as int) {
        Some(status) => Ok(status),
        None => Err(ProtocolMismatch { code }),
    }
}

/// Maps a lifecycle code onto its state, and rejects any other code.
pub fn translate_lifecycle(code: i32) -> (result: Result<Status, ProtocolMismatch>)
    ensures
        result == translated(code),
        result is Ok <==> is_known_code(code as int),
{
    match code {
        0 => Ok(Status::Okay),
        1 => Ok(Status::Bad),
        2 => Ok(Status::Started),
        3 => Ok(Status::Made),
        4 => Ok(Status::AwaitingResponse),
        5 => Ok(Status::AuthOk),
        6 => Ok(Status::Setenv),
        7 => Ok(Status::SslStartup),
        8 => Ok(Status::Needed),
        9 => Ok(Status::CheckWritable),
        10 => Ok(Status::Consume),
        11 => Ok(Status::GssStartup),
        12 => Ok(Status::CheckTarget),
        13 => Ok(Status::CheckStandby),
        14 => Ok(Status::Allocated),
        15 => Ok(Status::Authenticating),
        _ => Err(ProtocolMismatch { code }),
    }
}

/// A code is known exactly when it stands for a state.
pub proof fn lemma_known_codes_are_translated(code: int)
    ensures
        is_known_code(code) <==> status_of(code) is Some,
{
}

/// Two different known codes never stand for the same state.
pub proof fn lemma_codes_stand_apart(first: int, second: int)
    requires
        is_known_code(first),
        is_known_code(second),
        first != second,
    ensures
        status_of(first) != status_of(second),
{
}

/// A raw value that the connection reports under a name.
#[derive(Clone, Debug)]
pub struct Reported {
    /// The name that is asked for.
    pub name: String,
    /// The buffer reference that the connection answers with.
    pub value: Option<Vec<u8>>,
}

/// What a connection handle reports about itself at one moment, as raw
/// values: buffer references that may be null, integer codes, and a
/// terminated array of attribute names.
#[derive(Clone, Debug)]
pub struct Connection {
    /// Database name.
    pub db: Option<Vec<u8>>,
    /// User name.
    pub user: Option<Vec<u8>>,
    /// Password.
    pub pass: Option<Vec<u8>>,
    /// Server host: a host name, an address, or the directory of a socket.
    pub host: Option<Vec<u8>>,
    /// Port, as text.
    pub port: Option<Vec<u8>>,
    /// Debug terminal.
    pub tty: Option<Vec<u8>>,
    /// Command-line options passed in the connection request.
    pub options: Option<Vec<u8>>,
    /// Lifecycle code.
    pub status: i32,
    /// Transaction code.
    pub transaction_status: i32,
    /// Run-time parameters of the server. A name that is not listed is
    /// answered with a null reference.
    pub parameters: Vec<Reported>,
    /// Version of the frontend/backend protocol.
    pub protocol_version: i32,
    /// Version of the server, as one number.
    pub server_version: i32,
    /// Message of the most recent error.
    pub error_message: Option<Vec<u8>>,
    /// Descriptor of the socket; negative when there is none.
    pub socket: i32,
    /// Process id of the backend.
    pub backend_pid: i32,
    /// 1 when a password was required and none was available.
    pub needs_password: i32,
    /// 1 when a password was used.
    pub used_password: i32,
    /// 1 when the connection is encrypted.
    pub ssl_in_use: i32,
    /// Values of the transport security attributes. A name that is not
    /// listed is answered with a null reference.
    pub ssl_attributes: Vec<Reported>,
    /// Names of the transport security attributes that are available.
    pub ssl_attribute_names: Option<Vec<Option<Vec<u8>>>>,
}

/// Index of the first entry at or after `start` that is listed under `name`.
pub open spec fn position_from(entries: Seq<Reported>, name: Seq<char>, start: int) -> Option<int>
    decreases entries.len() - start,
{
    if start < 0 || start >= entries.len() {
        None
    } else if entries[start].name@ == name {
        Some(start)
    } else {
        position_from(entries, name, start + 1)
    }
}

/// The buffer reference that is reported under `name`: that of the first
/// entry with this name, and null when there is none.
pub open spec fn reported(entries: Seq<Reported>, name: Seq<char>) -> Option<Seq<u8>> {
    match position_from(entries, name, 0) {
        Some(index) => entries[index].value.deep_view(),
        None => None,
    }
}

/// The attributes that a list of names stands for, in the list's order.
pub open spec fn resolved(names: Seq<Seq<char>>) -> Seq<AttributeView> {
    Seq::new(names.len(), |i: int| AttributeView::of_name(names[i]))
}

/// A signed number read as an unsigned one of the same 32 bits.
pub open spec fn unsigned(raw: int) -> int {
    if raw >= 0 {
        raw
    } else {
        raw + 0x1_0000_0000
    }
}

/// `position_from` finds the first entry listed under `name`.
pub proof fn lemma_position_is_first(entries: Seq<Reported>, name: Seq<char>, start: int)
    requires
        0 <= start <= entries.len(),
    ensures
        match position_from(entries, name, start) {
            Some(index) => {
                &&& start <= index < entries.len()
                &&& entries[index].name@ == name
                &&& forall|i: int| start <= i < index ==> entries[i].name@ != name
            },
            None => forall|i: int| start <= i < entries.len() ==> entries[i].name@ != name,
        },
    decreases entries.len() - start,
{
    if start < entries.len() && entries[start].name@ != name {
        lemma_position_is_first(entries, name, start + 1);
    }
}

/// Finds the first entry that is listed under `name`.
fn find(entries: &Vec<Reported>, name: &str) -> (found: Option<usize>)
    ensures
        match found {
            Some(index) => index < entries@.len() && position_from(entries@, name@, 0) == Some(
                index as int,
            ),
            None => position_from(entries@, name@, 0) is None,
        },
{
    let mut index: usize = 0;
    while index < entries.len()
        invariant
            index <= entries@.len(),
            position_from(entries@, name@, 0) == position_from(entries@, name@, index as int),
        decreases entries@.len() - index,
    {
        if same_text(entries[index].name.as_str(), name) {
            return Some(index);
        }
        index += 1;
    }
    None
}

impl Connection {
    /// Returns the value of a transport security attribute. The attribute
    /// is asked for by its name; a null answer means that it does not apply
    /// to this connection, which is absence and no error.
    pub fn ssl_attribute(&self, attribute: Attribute) -> (text: Option<String>)
        ensures
            text.deep_view() == optional_text(reported(self.ssl_attributes@, attribute@.name())),
    {
        let name = attribute.name();
        match find(&self.ssl_attributes, name.as_str()) {
            Some(index) => read_optional(&self.ssl_attributes[index].value),
            None => None,
        }
    }

    /// Returns the descriptor of the connection's socket. A negative raw
    /// value means that no socket is open and is never handed out as a
    /// descriptor.
    pub fn socket(&self) -> (result: Result<i32, NoActiveSocket>)
        ensures
            self.socket < 0 ==> result == Err::<i32, NoActiveSocket>(NoActiveSocket),
            self.socket >= 0 ==> result == Ok::<i32, NoActiveSocket>(self.socket),
    {
        if self.socket < 0 {
            Err(NoActiveSocket)
        } else {
            Ok(self.socket)
        }
    }

    /// Returns the transport security attributes that are available, in the
    /// order in which the connection lists them. Every listed name comes
    /// back, a name that is not known as `Other`; a null list gives none.
    pub fn ssl_attribute_names(&self) -> (attributes: Vec<Attribute>)
        ensures
            attributes.deep_view() == resolved(array_texts(self.ssl_attribute_names.deep_view())),
            self.ssl_attribute_names is None ==> attributes@.len() == 0,
    {
        let names = read_array(&self.ssl_attribute_names);
        let mut attributes: Vec<Attribute> = Vec::new();
        let mut index: usize = 0;
        while index < names.len()
            invariant
                index <= names@.len(),
                attributes@.len() == index,
                forall|i: int| 0 <= i < index ==> attributes@[i]@ == AttributeView::of_name(names@[i]@),
            decreases names@.len() - index,
        {
            attributes.push(Attribute::from_name(names[index].as_str()));
            index += 1;
        }
        assert(attributes.deep_view() =~= resolved(names.deep_view()));
        attributes
    }

    /// Looks up a current parameter setting of the server. The connection
    /// answers with a buffer for every name that it tracks.
    pub fn parameter_status(&self, param: &str) -> (text: String)
        requires
            reported(self.parameters@, param@) is Some,
        ensures
            text@ == text_of(reported(self.parameters@, param@)->0),
    {
        let index = find(&self.parameters, param).unwrap();
        let value = &self.parameters[index].value;
        assert(value->0.deep_view() =~= value->0@);
        read_required(value)
    }
    /// Returns the database name of the connection.
    pub fn db(&self) -> (text: String)
        requires
            self.db is Some,
        ensures
            text@ == text_of(self.db->0@),
    {
        read_required(&self.db)
    }

    /// Returns the user name of the connection.
    pub fn user(&self) -> (text: String)
        requires
            self.user is Some,
        ensures
            text@ == text_of(self.user->0@),
    {
        read_required(&self.user)
    }

    /// Returns the password of the connection. No password is absence; an
    /// empty password is a text.
    pub fn pass(&self) -> (text: Option<String>)
        ensures
            text.deep_view() == optional_text(self.pass.deep_view()),
    {
        read_optional(&self.pass)
    }

    /// Returns the server host of the connection: a host name, an address,
    /// or, for a local socket, the absolute path of its directory.
    pub fn host(&self) -> (text: String)
        requires
            self.host is Some,
        ensures
            text@ == text_of(self.host->0@),
    {
        read_required(&self.host)
    }

    /// Returns the port of the connection, as the text that was configured.
    pub fn port(&self) -> (text: String)
        requires
            self.port is Some,
        ensures
            text@ == text_of(self.port->0@),
    {
        read_required(&self.port)
    }

    /// Returns the debug terminal of the connection. Servers no longer pay
    /// attention to it; the accessor remains for older callers.
    pub fn tty(&self) -> (text: Option<String>)
        ensures
            text.deep_view() == optional_text(self.tty.deep_view()),
    {
        read_optional(&self.tty)
    }

    /// Returns the command-line options passed in the connection request.
    pub fn options(&self) -> (text: Option<String>)
        ensures
            text.deep_view() == optional_text(self.options.deep_view()),
    {
        read_optional(&self.options)
    }

    /// Returns the state of the connection, or the code that stands for no
    /// state.
    pub fn status(&self) -> (result: Result<Status, ProtocolMismatch>)
        ensures
            result == translated(self.status),
            result is Ok <==> is_known_code(self.status as int),
    {
        translate_lifecycle(self.status)
    }

    /// Returns the in-transaction state of the server, or the code that
    /// stands for no state.
    pub fn transaction_status(&self) -> (result: Result<transaction::Status, ProtocolMismatch>)
        ensures
            result == transaction::translated(self.transaction_status),
            result is Ok <==> transaction::is_known_code(self.transaction_status as int),
    {
        transaction::translate_transaction(self.transaction_status)
    }

    /// Returns the version of the frontend/backend protocol in use.
    pub fn protocol_version(&self) -> (version: i32)
        ensures
            version == self.protocol_version,
    {
        self.protocol_version
    }

    /// Returns the version of the server as one number.
    pub fn server_version(&self) -> (version: i32)
        ensures
            version == self.server_version,
    {
        self.server_version
    }

    /// Returns the message of the most recent error on the connection, and
    /// nothing when none is recorded.
    pub fn error_message(&self) -> (text: Option<String>)
        ensures
            text.deep_view() == optional_text(self.error_message.deep_view()),
    {
        read_optional(&self.error_message)
    }

    /// Returns the process id of the backend that serves the connection,
    /// read as an unsigned number.
    pub fn backend_pid(&self) -> (pid: u32)
        ensures
            pid == unsigned(self.backend_pid as int),
    {
        if self.backend_pid >= 0 {
            self.backend_pid as u32
        } else {
            let wide: i64 = self.backend_pid as i64 + 0x1_0000_0000i64;
            wide as u32
        }
    }

    /// Returns `true` if the authentication method required a password and
    /// none was available.
    pub fn needs_password(&self) -> (needed: bool)
        ensures
            needed == (self.needs_password == 1),
    {
        self.needs_password == 1
    }

    /// Returns `true` if the authentication method used a password.
    pub fn used_password(&self) -> (used: bool)
        ensures
            used == (self.used_password == 1),
    {
        self.used_password == 1
    }

    /// Returns `true` if the connection is encrypted.
    pub fn ssl_in_use(&self) -> (in_use: bool)
        ensures
            in_use == (self.ssl_in_use == 1),
    {
        self.ssl_in_use == 1
    }
}

} // verus!

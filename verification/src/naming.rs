//! Session handles: the socket and session names of a popup, how they are
//! derived from the parent session and the command, and how a client tells
//! that it is attached to one.

use crate::text::{
    char_is_alphanumeric, contains, contains_text, decode_lossy, push_char, trim_whitespace,
    trimmed, unicode_alphanumeric, utf8_lossy,
};
use vstd::prelude::*;
use vstd::std_specs::iter::IteratorSpec;

verus! {

/// What every socket name starts with.
pub const SOCKET_PREFIX: &'static str = "popup-session";

/// What every session name ends with.
pub const SESSION_SUFFIX: &'static str = "_popup";

/// A character that may stand in an identifier as it is.
pub open spec fn is_identifier_char(c: char) -> bool {
    unicode_alphanumeric(c) || c == '-' || c == '_'
}

/// What sanitizing makes of one character: an identifier character stays,
/// any other becomes an underscore.
pub open spec fn sanitized_char(c: char) -> char {
    if is_identifier_char(c) {
        c
    } else {
        '_'
    }
}

/// What sanitizing makes of a name: each character on its own.
pub open spec fn sanitized(name: Seq<char>) -> Seq<char> {
    Seq::new(name.len(), |i: int| sanitized_char(name[i]))
}

/// Whether every character of `name` may stand in an identifier.
pub open spec fn is_identifier(name: Seq<char>) -> bool {
    forall|i: int| 0 <= i < name.len() ==> is_identifier_char(#[trigger] name[i])
}

/// The parent session's name as the host printed it: the output decoded as
/// text, without the whitespace around it.
pub open spec fn parent_name_in(output: Seq<u8>) -> Seq<char> {
    trimmed(utf8_lossy(output))
}

/// The socket name of the popup that `command` gets under `parent`.
pub open spec fn socket_name_for(parent: Seq<char>, command: Option<Seq<char>>) -> Seq<char> {
    let base = SOCKET_PREFIX@ + "-"@ + sanitized(parent);
    match command {
        Some(text) => base + "-"@ + text,
        None => base,
    }
}

/// The session name of the popup that `command` gets under `parent`.
pub open spec fn session_name_for(parent: Seq<char>, command: Option<Seq<char>>) -> Seq<char> {
    match command {
        Some(text) => sanitized(parent) + "_"@ + text + SESSION_SUFFIX@,
        None => sanitized(parent) + SESSION_SUFFIX@,
    }
}

/// The two names of a handle, as text.
pub ghost struct HandleNames {
    pub socket_name: Seq<char>,
    pub session_name: Seq<char>,
}

/// The names of the popup that `command` gets under `parent`.
pub open spec fn derived(parent: Seq<char>, command: Option<Seq<char>>) -> HandleNames {
    HandleNames {
        socket_name: socket_name_for(parent, command),
        session_name: session_name_for(parent, command),
    }
}

/// Whether a client whose context indicator reads `context` is attached to
/// the socket of `names`: the indicator is set and holds the socket name.
pub open spec fn attached_to(context: Option<Seq<char>>, names: HandleNames) -> bool {
    match context {
        Some(descriptor) => contains_text(descriptor, names.socket_name),
        None => false,
    }
}

/// Names one popup on the host: a socket of its own, and the session on it.
#[derive(Debug, PartialEq, Eq)]
pub struct SessionHandle {
    pub socket_name: String,
    pub session_name: String,
}

impl View for SessionHandle {
    type V = HandleNames;

    open spec fn view(&self) -> HandleNames {
        HandleNames { socket_name: self.socket_name@, session_name: self.session_name@ }
    }
}

/// Sanitizes `name`: every character that is not alphanumeric, `-` or `_`
/// is replaced by `_`.
pub fn sanitize(name: &str) -> (id: String)
    ensures
        id@ == sanitized(name@),
        is_identifier(id@),
{
    let mut id = String::new();
    for c in it: name.chars()
        invariant
            id@ == sanitized(it.seq().take(it.index())),
    {
        let kept = if char_is_alphanumeric(c) || c == '-' || c == '_' {
            c
        } else {
            '_'
        };
        push_char(&mut id, kept);
    }
    id
}

/// Reads the parent session's name out of what the host printed for it.
pub fn parent_name(output: &[u8]) -> (name: String)
    ensures
        name@ == parent_name_in(output@),
{
    let text = decode_lossy(output);
    String::from_str(trim_whitespace(text.as_str()))
}

impl SessionHandle {
    /// Derives the handle of the popup that `command` gets under the session
    /// named `parent_session`. The parent's name is sanitized; the command is
    /// taken as it is.
    pub fn derive(parent_session: &str, command: Option<&str>) -> (handle: SessionHandle)
        ensures
            handle@ == derived(parent_session@, command.deep_view()),
    {
        let id = sanitize(parent_session);
        let mut socket_name = String::from_str(SOCKET_PREFIX);
        socket_name.append("-");
        socket_name.append(id.as_str());
        let mut session_name = id;
        match command {
            Some(text) => {
                socket_name.append("-");
                socket_name.append(text);
                session_name.append("_");
                session_name.append(text);
            },
            None => {},
        }
        session_name.append(SESSION_SUFFIX);
        SessionHandle { socket_name, session_name }
    }

    /// Whether the client is attached to this popup, going by its context
    /// indicator: `context` is what the indicator reads now, `None` where it
    /// is not set.
    pub fn is_attached(&self, context: Option<&str>) -> (attached: bool)
        ensures
            attached == attached_to(context.deep_view(), self@),
    {
        match context {
            Some(descriptor) => contains(descriptor, self.socket_name.as_str()),
            None => false,
        }
    }
}

impl Clone for SessionHandle {
    fn clone(&self) -> (copy: SessionHandle)
        ensures
            copy == *self,
    {
        SessionHandle {
            socket_name: self.socket_name.clone(),
            session_name: self.session_name.clone(),
        }
    }
}

/// Sanitizing yields an identifier: only alphanumerics, `-` and `_` are left.
pub proof fn lemma_sanitized_is_identifier(name: Seq<char>)
    ensures
        is_identifier(sanitized(name)),
        sanitized(name).len() == name.len(),
{
}

/// Sanitizing leaves an identifier as it is.
pub proof fn lemma_identifier_is_kept(name: Seq<char>)
    requires
        is_identifier(name),
    ensures
        sanitized(name) == name,
{
    assert(sanitized(name) =~= name);
}

/// Sanitizing twice is sanitizing once.
pub proof fn lemma_sanitize_is_idempotent(name: Seq<char>)
    ensures
        sanitized(sanitized(name)) == sanitized(name),
{
    lemma_identifier_is_kept(sanitized(name));
}

/// Deriving is a function of the parent session and the command: two handles
/// derived from the same pair carry the same socket name and the same session
/// name.
pub proof fn lemma_derive_is_deterministic(
    parent: Seq<char>,
    command: Option<Seq<char>>,
    first: SessionHandle,
    second: SessionHandle,
)
    requires
        first@ == derived(parent, command),
        second@ == derived(parent, command),
    ensures
        first@ == second@,
        first.socket_name@ == second.socket_name@,
        first.session_name@ == second.session_name@,
{
}

/// Appending different texts to the same text gives different texts.
proof fn lemma_append_differs(head: Seq<char>, a: Seq<char>, b: Seq<char>)
    requires
        a != b,
    ensures
        head + a != head + b,
{
    if head + a == head + b {
        assert(a.len() == b.len()) by {
            assert((head + a).len() == (head + b).len());
        }
        assert forall|i: int| 0 <= i < a.len() implies a[i] == b[i] by {
            assert((head + a)[head.len() + i] == (head + b)[head.len() + i]);
        }
        assert(a =~= b);
    }
}

/// Different texts followed by the same text give different texts.
proof fn lemma_prepend_differs(a: Seq<char>, b: Seq<char>, tail: Seq<char>)
    requires
        a != b,
    ensures
        a + tail != b + tail,
{
    if a + tail == b + tail {
        assert(a.len() == b.len()) by {
            assert((a + tail).len() == (b + tail).len());
        }
        assert forall|i: int| 0 <= i < a.len() implies a[i] == b[i] by {
            assert((a + tail)[i] == (b + tail)[i]);
        }
        assert(a =~= b);
    }
}

/// Under one parent session, each command has a popup of its own: two
/// different commands differ in both names, and the popup without a command
/// differs in both names from the popup of any command.
pub proof fn lemma_commands_have_distinct_handles(parent: Seq<char>, a: Seq<char>, b: Seq<char>)
    requires
        a != b,
    ensures
        socket_name_for(parent, Some(a)) != socket_name_for(parent, Some(b)),
        session_name_for(parent, Some(a)) != session_name_for(parent, Some(b)),
        socket_name_for(parent, None) != socket_name_for(parent, Some(a)),
        session_name_for(parent, None) != session_name_for(parent, Some(a)),
        derived(parent, Some(a)) != derived(parent, Some(b)),
        derived(parent, None) != derived(parent, Some(a)),
{
    reveal_strlit("-");
    reveal_strlit("_");
    let id = sanitized(parent);
    let base = SOCKET_PREFIX@ + "-"@ + id;
    lemma_append_differs(base + "-"@, a, b);
    lemma_append_differs(id + "_"@, a, b);
    lemma_prepend_differs(id + "_"@ + a, id + "_"@ + b, SESSION_SUFFIX@);
    assert(socket_name_for(parent, Some(a)).len() == base.len() + 1 + a.len());
    assert(session_name_for(parent, Some(a)).len() == id.len() + 1 + a.len()
        + SESSION_SUFFIX@.len());
    assert(session_name_for(parent, None).len() == id.len() + SESSION_SUFFIX@.len());
}

} // verus!

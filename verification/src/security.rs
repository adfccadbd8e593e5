//! Who may open a pipe: the user that the server runs as, and nobody else.
//!
//! The system takes the access rights as text. A [`SecurityOp`] says which system
//! calls lead to a security descriptor for that text, and what to give back when
//! one of them fails.

use crate::error::IoError;
use crate::transfer::{handle_is_open, is_open};
use crate::wide::{law_utf16_comes_back, lemma_utf16_concat, lossy, push_lossy, push_wide, utf16};
use vstd::prelude::*;

verus! {

/// The access rights that grant everything to the user with the security
/// identifier `sid`, and nothing to anybody else: a protected list, which inherits
/// no entries, with one entry.
pub open spec fn owner_only(sid: Seq<char>) -> Seq<char> {
    "D:P(A;;GA;;;"@ + sid + ")"@
}

/// The access rights for the user whose security identifier is `sid`, in UTF-16,
/// as system calls take them.
pub fn owner_only_rights(sid: &[u16]) -> (rights: Vec<u16>)
    ensures
        rights@ == utf16(owner_only(lossy(sid@))).push(0),
{
    let head = "D:P(A;;GA;;;";
    let tail = ")";
    let mut rights: Vec<u16> = Vec::new();
    push_wide(&mut rights, head);
    push_lossy(&mut rights, sid);
    push_wide(&mut rights, tail);
    rights.push(0);
    proof {
        lemma_utf16_concat(head@, lossy(sid@));
        lemma_utf16_concat(head@ + lossy(sid@), tail@);
        assert(rights@ =~= utf16(owner_only(lossy(sid@))).push(0));
    }
    rights
}

/// The access rights name the user that they were made for: whatever the security
/// identifier is, it stands in them unchanged.
pub proof fn law_rights_name_the_user(sid: Seq<char>)
    ensures
        utf16(owner_only(lossy(utf16(sid)))) == utf16(owner_only(sid)),
{
    law_utf16_comes_back(sid);
}

/// The access rights of different users are different.
pub proof fn law_rights_are_for_one_user(one: Seq<char>, other: Seq<char>)
    requires
        utf16(owner_only(one)) == utf16(owner_only(other)),
    ensures
        one == other,
{
    law_utf16_comes_back(owner_only(one));
    law_utf16_comes_back(owner_only(other));
    let head = "D:P(A;;GA;;;"@.len() as int;
    assert(owner_only(one).len() == owner_only(other).len());
    assert(one =~= owner_only(one).subrange(head, head + one.len()));
    assert(other =~= owner_only(other).subrange(head, head + other.len()));
}

/// The access that lets a token be queried.
pub const TOKEN_QUERY: u32 = 8;

/// The kind of information that says whose a token is.
pub const TOKEN_USER: u32 = 1;

/// The revision of the text form of access rights.
pub const SDDL_REVISION_1: u32 = 1;

/// What the system is told about who may open a pipe.
#[derive(Clone, Copy, Debug, PartialEq, Eq)]
pub struct SecurityAttributes {
    /// How many bytes the system's form of these attributes takes.
    pub length: u32,
    /// The address of the security descriptor.
    pub descriptor: usize,
    /// Whether child processes inherit the handle; zero if not.
    pub inherit_handle: i32,
}

impl SecurityAttributes {
    /// The attributes with a descriptor: the handle is not inherited. The system's
    /// form has a pointer between two shorter numbers, each in as much room as the
    /// pointer takes.
    pub open spec fn with(descriptor: usize) -> SecurityAttributes {
        SecurityAttributes {
            length: (3 * (usize::BITS / 8)) as u32,
            descriptor,
            inherit_handle: 0,
        }
    }
}

/// What the driver of a [`SecurityOp`] has to do next. Where a call can fail, its
/// outcome goes through [`crate::error::win32_ok`].
#[derive(Clone, Copy, Debug, PartialEq, Eq)]
pub enum SecurityCall {
    /// `OpenProcessToken`, for the current process.
    OpenToken { access: u32 },
    /// `GetTokenInformation`, without a buffer: to learn its length.
    Measure { class: u32 },
    /// `GetTokenInformation`, into a buffer of `length` zeros.
    Query { class: u32, length: u32 },
    /// `ConvertSidToStringSidW`, for the security identifier in the buffer. What comes
    /// of it goes to [`SecurityOp::describe`], with the text.
    ToText,
    /// `ConvertStringSecurityDescriptorToSecurityDescriptorW`, for the rights that
    /// [`SecurityOp::describe`] gave.
    Describe { revision: u32 },
    /// Nothing more: these are the attributes, or why there are none. The text is
    /// freed and the token is closed, where they are given. The descriptor has to be
    /// freed when the attributes are not in use any more.
    Finish {
        outcome: Result<SecurityAttributes, IoError>,
        free_text: Option<usize>,
        close_token: Option<isize>,
    },
}

/// What came of a [`SecurityCall`]. Memory is given by its address.
#[derive(Clone, Copy, Debug, PartialEq, Eq)]
pub enum SecurityReply {
    /// The token, if it could be opened.
    Opened { outcome: Result<(), IoError>, token: isize },
    /// The length that the buffer needs.
    Measured { length: u32 },
    /// Whether the buffer could be filled.
    Queried(Result<(), IoError>),
    /// The text, if there is one.
    Converted { outcome: Result<(), IoError>, text: usize },
    /// The descriptor, if there is one.
    Described { outcome: Result<(), IoError>, descriptor: usize },
}

/// Which call making the attributes waits for the outcome of.
#[derive(Clone, Copy, Debug, PartialEq, Eq)]
pub enum SecurityPhase {
    /// [`SecurityCall::OpenToken`].
    Opening,
    /// [`SecurityCall::Measure`].
    Measuring,
    /// [`SecurityCall::Query`].
    Querying,
    /// [`SecurityCall::ToText`].
    Converting,
    /// [`SecurityCall::Describe`].
    Describing,
    /// Nothing: it is over.
    Finished,
}

/// Where the making of security attributes stands.
#[derive(Clone, Copy, Debug, PartialEq, Eq)]
pub struct SecurityState {
    /// The token of the process, or zero before there is one.
    pub token: isize,
    /// The address of the text, or zero before there is one.
    pub text: usize,
    /// What the making waits for.
    pub phase: SecurityPhase,
}

impl SecurityState {
    /// The same making, in another phase.
    pub open spec fn at(self, phase: SecurityPhase) -> SecurityState {
        SecurityState { phase, ..self }
    }

    /// The making is over, with this outcome; what it holds is given back.
    pub open spec fn ending(self, outcome: Result<SecurityAttributes, IoError>) -> (
        SecurityState,
        SecurityCall,
    ) {
        (
            self.at(SecurityPhase::Finished),
            SecurityCall::Finish {
                outcome,
                free_text: if self.text != 0 {
                    Some(self.text)
                } else {
                    None
                },
                close_token: if is_open(self.token) {
                    Some(self.token)
                } else {
                    None
                },
            },
        )
    }

    /// Whether `reply` is an outcome of the call that is waited for.
    pub open spec fn fits(self, reply: SecurityReply) -> bool {
        match self.phase {
            SecurityPhase::Opening => reply is Opened,
            SecurityPhase::Measuring => reply is Measured,
            SecurityPhase::Querying => reply is Queried,
            SecurityPhase::Converting => reply is Converted,
            SecurityPhase::Describing => reply is Described,
            SecurityPhase::Finished => false,
        }
    }

    /// What follows on the outcome `reply` of the call that is waited for.
    pub open spec fn next(self, reply: SecurityReply) -> (SecurityState, SecurityCall) {
        match (self.phase, reply) {
            (SecurityPhase::Opening, SecurityReply::Opened { outcome, token }) => match outcome {
                Err(error) => self.ending(Err(error)),
                Ok(_) => (
                    SecurityState { token, phase: SecurityPhase::Measuring, ..self },
                    SecurityCall::Measure { class: TOKEN_USER },
                ),
            },
            (SecurityPhase::Measuring, SecurityReply::Measured { length }) => (
                self.at(SecurityPhase::Querying),
                SecurityCall::Query { class: TOKEN_USER, length },
            ),
            (SecurityPhase::Querying, SecurityReply::Queried(outcome)) => match outcome {
                Err(error) => self.ending(Err(error)),
                Ok(_) => (self.at(SecurityPhase::Converting), SecurityCall::ToText),
            },
            (SecurityPhase::Converting, SecurityReply::Converted { outcome, text }) => {
                match outcome {
                    Err(error) => self.ending(Err(error)),
                    Ok(_) => (
                        SecurityState { text, phase: SecurityPhase::Describing, ..self },
                        SecurityCall::Describe { revision: SDDL_REVISION_1 },
                    ),
                }
            },
            (SecurityPhase::Describing, SecurityReply::Described { outcome, descriptor }) => {
                match outcome {
                    Err(error) => self.ending(Err(error)),
                    Ok(_) => self.ending(Ok(SecurityAttributes::with(descriptor))),
                }
            },
            _ => self.ending(Err(IoError::Driver)),
        }
    }
}

/// The making of security attributes.
#[derive(Debug, PartialEq, Eq)]
pub struct SecurityOp {
    state: SecurityState,
}

impl View for SecurityOp {
    type V = SecurityState;

    closed spec fn view(&self) -> SecurityState {
        self.state
    }
}

impl SecurityOp {
    fn finish(&mut self, outcome: Result<SecurityAttributes, IoError>) -> (call: SecurityCall)
        ensures
            (final(self)@, call) == old(self)@.ending(outcome),
    {
        self.state.phase = SecurityPhase::Finished;
        let free_text = if self.state.text != 0 {
            Some(self.state.text)
        } else {
            None
        };
        let close_token = if handle_is_open(self.state.token) {
            Some(self.state.token)
        } else {
            None
        };
        SecurityCall::Finish { outcome, free_text, close_token }
    }

    /// Begins to make security attributes.
    pub fn owner_only_security_attributes() -> (started: (SecurityOp, SecurityCall))
        ensures
            started.0@ == (SecurityState { token: 0, text: 0, phase: SecurityPhase::Opening }),
            started.1 == (SecurityCall::OpenToken { access: TOKEN_QUERY }),
    {
        let state = SecurityState { token: 0, text: 0, phase: SecurityPhase::Opening };
        (SecurityOp { state }, SecurityCall::OpenToken { access: TOKEN_QUERY })
    }

    /// Takes the outcome of the call that is waited for, and says which call to
    /// make next.
    pub fn step(&mut self, reply: SecurityReply) -> (call: SecurityCall)
        requires
            old(self)@.fits(reply),
        ensures
            (final(self)@, call) == old(self)@.next(reply),
    {
        match (self.state.phase, reply) {
            (SecurityPhase::Opening, SecurityReply::Opened { outcome, token }) => match outcome {
                Err(error) => self.finish(Err(error)),
                Ok(_) => {
                    self.state.token = token;
                    self.state.phase = SecurityPhase::Measuring;
                    SecurityCall::Measure { class: TOKEN_USER }
                },
            },
            (SecurityPhase::Measuring, SecurityReply::Measured { length }) => {
                self.state.phase = SecurityPhase::Querying;
                SecurityCall::Query { class: TOKEN_USER, length }
            },
            (SecurityPhase::Querying, SecurityReply::Queried(outcome)) => match outcome {
                Err(error) => self.finish(Err(error)),
                Ok(_) => {
                    self.state.phase = SecurityPhase::Converting;
                    SecurityCall::ToText
                },
            },
            (SecurityPhase::Converting, SecurityReply::Converted { outcome, text }) => {
                match outcome {
                    Err(error) => self.finish(Err(error)),
                    Ok(_) => {
                        self.state.text = text;
                        self.state.phase = SecurityPhase::Describing;
                        SecurityCall::Describe { revision: SDDL_REVISION_1 }
                    },
                }
            },
            (SecurityPhase::Describing, SecurityReply::Described { outcome, descriptor }) => {
                match outcome {
                    Err(error) => self.finish(Err(error)),
                    Ok(_) => {
                        let length: u32 = 3 * (usize::BITS / 8);
                        self.finish(
                            Ok(SecurityAttributes { length, descriptor, inherit_handle: 0 }),
                        )
                    },
                }
            },
            _ => self.finish(Err(IoError::Driver)),
        }
    }

    /// Takes what came of making a text of the security identifier: the address of the
    /// text, and the text up to its zero. Says which call to make next, and gives the
    /// rights that a descriptor is made of: those of the user that the text names.
    pub fn describe(
        &mut self,
        outcome: Result<(), IoError>,
        address: usize,
        text: &[u16],
    ) -> (described: (SecurityCall, Vec<u16>))
        requires
            old(self)@.phase is Converting,
        ensures
            (final(self)@, described.0) == old(self)@.next(
                SecurityReply::Converted { outcome, text: address },
            ),
            described.0 is Describe <==> outcome is Ok,
            described.1@ == if outcome is Ok {
                utf16(owner_only(lossy(text@))).push(0)
            } else {
                Seq::empty()
            },
    {
        let rights = match outcome {
            Ok(_) => owner_only_rights(text),
            Err(_) => Vec::new(),
        };
        let call = self.step(SecurityReply::Converted { outcome, text: address });
        (call, rights)
    }
}

/// Whatever the calls return, the token that was opened is closed and the text that
/// was made is freed when the making ends, and neither before that.
pub proof fn law_nothing_is_left_open(op: SecurityState, reply: SecurityReply)
    requires
        op.fits(reply),
    ensures
        match op.next(reply).1 {
            SecurityCall::Finish { outcome, free_text, close_token } => {
                &&& op.text != 0 <==> free_text is Some
                &&& is_open(op.token) <==> close_token is Some
                &&& free_text matches Some(text) ==> text == op.text
                &&& close_token matches Some(token) ==> token == op.token
            },
            _ => {
                let after = op.next(reply).0;
                &&& after.token == if op.phase is Opening {
                    reply->token
                } else {
                    op.token
                }
                &&& after.text == if op.phase is Converting {
                    reply->text
                } else {
                    op.text
                }
            },
        },
{
}

/// The first call that fails ends the making, with its error; where none fails, the
/// descriptor is handed out, in attributes that let no handle be inherited.
pub proof fn law_first_failure_ends_it(op: SecurityState, reply: SecurityReply)
    requires
        op.fits(reply),
    ensures
        match reply {
            SecurityReply::Opened { outcome, token } => outcome matches Err(error)
                ==> op.next(reply) == op.ending(Err(error)),
            SecurityReply::Measured { length } => !(op.next(reply).1 is Finish),
            SecurityReply::Queried(outcome) => outcome matches Err(error) ==> op.next(reply)
                == op.ending(Err(error)),
            SecurityReply::Converted { outcome, text } => outcome matches Err(error)
                ==> op.next(reply) == op.ending(Err(error)),
            SecurityReply::Described { outcome, descriptor } => op.next(reply) == op.ending(
                match outcome {
                    Ok(_) => Ok(
                        SecurityAttributes {
                            length: (3 * (usize::BITS / 8)) as u32,
                            descriptor,
                            inherit_handle: 0,
                        },
                    ),
                    Err(error) => Err(error),
                },
            ),
        },
{
}

/// The rights are the text that grants everything to one user, with the security identifier
/// of that user in it, character by character.
pub proof fn law_rights_in_full(sid: Seq<char>)
    ensures
        owner_only(sid) == seq!['D', ':', 'P', '(', 'A', ';', ';', 'G', 'A', ';', ';', ';'] + sid
            + seq![')'],
{
    reveal_strlit("D:P(A;;GA;;;");
    reveal_strlit(")");
    assert("D:P(A;;GA;;;"@ =~= seq!['D', ':', 'P', '(', 'A', ';', ';', 'G', 'A', ';', ';', ';']);
    assert(")"@ =~= seq![')']);
}

/// The attributes are made in this order: the token of the process is opened to be queried,
/// the information whose it is is measured and fetched, its security identifier is turned
/// into text, and the rights for that user into a descriptor, which the attributes carry;
/// they are three pointers long and are not inherited. At the end the text is freed and the
/// token closed.
pub proof fn law_attributes_are_made(
    op: SecurityState,
    token: isize,
    length: u32,
    text: usize,
    descriptor: usize,
)
    requires
        op.phase is Opening,
        op.text == 0,
    ensures
        ({
            let (measuring, first) = op.next(SecurityReply::Opened { outcome: Ok(()), token });
            let (querying, second) = measuring.next(SecurityReply::Measured { length });
            let (converting, third) = querying.next(SecurityReply::Queried(Ok(())));
            let (describing, fourth) = converting.next(
                SecurityReply::Converted { outcome: Ok(()), text },
            );
            let last = describing.next(SecurityReply::Described { outcome: Ok(()), descriptor }).1;
            &&& first == SecurityCall::Measure { class: 1 }
            &&& second == SecurityCall::Query { class: 1, length }
            &&& third == SecurityCall::ToText
            &&& fourth == SecurityCall::Describe { revision: 1 }
            &&& last matches SecurityCall::Finish { outcome, free_text, close_token } && {
                &&& outcome matches Ok(attributes) && attributes.descriptor == descriptor
                    && attributes.inherit_handle == 0 && attributes.length == 3 * (usize::BITS / 8)
                &&& free_text == if text != 0 {
                    Some(text)
                } else {
                    None
                }
                &&& close_token == if token != 0 && token != -1 {
                    Some(token)
                } else {
                    None
                }
            }
        }),
        TOKEN_QUERY == 8,
{
}

/// A call that fails ends the making with its error, and what there is by then is given
/// back: nothing before the token is there, the token after that, and the text too when
/// there is one.
pub proof fn law_attributes_fail_with_the_cause(
    op: SecurityState,
    token: isize,
    length: u32,
    text: usize,
    error: IoError,
)
    requires
        op.phase is Opening,
        op.token == 0,
        op.text == 0,
        token != 0,
        token != -1,
        text != 0,
    ensures
        ({
            let measuring = op.next(SecurityReply::Opened { outcome: Ok(()), token }).0;
            let querying = measuring.next(SecurityReply::Measured { length }).0;
            let converting = querying.next(SecurityReply::Queried(Ok(()))).0;
            let describing = converting.next(
                SecurityReply::Converted { outcome: Ok(()), text },
            ).0;
            let with_token = SecurityCall::Finish {
                outcome: Err(error),
                free_text: None,
                close_token: Some(token),
            };
            &&& op.next(SecurityReply::Opened { outcome: Err(error), token }).1
                == SecurityCall::Finish {
                outcome: Err(error),
                free_text: None,
                close_token: None,
            }
            &&& querying.next(SecurityReply::Queried(Err(error))).1 == with_token
            &&& converting.next(SecurityReply::Converted { outcome: Err(error), text }).1
                == with_token
            &&& forall|descriptor: usize| #[trigger]
                describing.next(SecurityReply::Described { outcome: Err(error), descriptor }).1
                    == (SecurityCall::Finish {
                    outcome: Err(error),
                    free_text: Some(text),
                    close_token: Some(token),
                })
        }),
{
}

} // verus!

//! The options a user gave to a slash command, and how a named option is
//! looked up in them.

use vstd::prelude::*;
use crate::text::str_eq;

verus! {

/// The value of one command option.
#[derive(Debug)]
pub enum OptionValue {
    SubCommand(Vec<CommandOption>),
    SubCommandGroup(Vec<CommandOption>),
    User(u64),
    Role(u64),
    String(String),
    Boolean(bool),
    Integer(i64),
    /// A kind of value the bot does not read (channels, numbers, ...).
    Other,
}

/// One named command option.
#[derive(Debug)]
pub struct CommandOption {
    pub name: String,
    pub value: OptionValue,
}

/// The kinds of value a lookup asks for.
#[derive(Clone, Copy, Debug, PartialEq, Eq, Structural)]
pub enum ValueKind {
    User,
    Role,
    String,
    Boolean,
    Integer,
}

/// Whether `v` is a value of kind `kind`.
pub open spec fn is_kind(v: OptionValue, kind: ValueKind) -> bool {
    match v {
        OptionValue::User(_) => kind == ValueKind::User,
        OptionValue::Role(_) => kind == ValueKind::Role,
        OptionValue::String(_) => kind == ValueKind::String,
        OptionValue::Boolean(_) => kind == ValueKind::Boolean,
        OptionValue::Integer(_) => kind == ValueKind::Integer,
        _ => false,
    }
}

/// The plain content of a value: what tells two values apart.
pub open spec fn leaf_view(v: OptionValue) -> Option<(ValueKind, int, Seq<char>)> {
    match v {
        OptionValue::User(u) => Some((ValueKind::User, u as int, Seq::empty())),
        OptionValue::Role(r) => Some((ValueKind::Role, r as int, Seq::empty())),
        OptionValue::String(s) => Some((ValueKind::String, 0, s@)),
        OptionValue::Boolean(b) => Some((ValueKind::Boolean, if b { 1 } else { 0 }, Seq::empty())),
        OptionValue::Integer(i) => Some((ValueKind::Integer, i as int, Seq::empty())),
        _ => None,
    }
}

/// Looks `name` up among `opts` from position `i` on: the first option
/// that is a subcommand (or group) ends the search with the lookup inside
/// it, whatever that gives; otherwise the first option of the wanted kind
/// named `name` is the answer.
pub open spec fn lookup(opts: Seq<CommandOption>, i: int, name: Seq<char>, kind: ValueKind) -> Option<
    (ValueKind, int, Seq<char>),
>
    decreases opts, opts.len() - i,
{
    if i < 0 || i >= opts.len() {
        None
    } else {
        match opts[i].value {
            OptionValue::SubCommand(sub) => lookup(sub@, 0, name, kind),
            OptionValue::SubCommandGroup(sub) => lookup(sub@, 0, name, kind),
            _ => if is_kind(opts[i].value, kind) && opts[i].name@ == name {
                leaf_view(opts[i].value)
            } else {
                lookup(opts, i + 1, name, kind)
            },
        }
    }
}

fn copy_leaf(v: &OptionValue) -> (r: OptionValue)
    ensures
        leaf_view(r) == leaf_view(*v),
        forall|k: ValueKind| is_kind(r, k) == is_kind(*v, k),
{
    match v {
        OptionValue::User(u) => OptionValue::User(*u),
        OptionValue::Role(r) => OptionValue::Role(*r),
        OptionValue::String(s) => OptionValue::String(s.clone()),
        OptionValue::Boolean(b) => OptionValue::Boolean(*b),
        OptionValue::Integer(i) => OptionValue::Integer(*i),
        _ => OptionValue::Other,
    }
}

/// Looks `name` up among `opts`; see `lookup`.
fn find_value(opts: &Vec<CommandOption>, name: &str, kind: ValueKind) -> (r: Option<OptionValue>)
    ensures
        match r {
            Some(v) => lookup(opts@, 0, name@, kind) == leaf_view(v) && leaf_view(v).is_some()
                && is_kind(v, kind),
            None => lookup(opts@, 0, name@, kind).is_none(),
        },
    decreases opts@,
{
    let mut i: usize = 0;
    while i < opts.len()
        invariant
            i <= opts.len(),
            lookup(opts@, 0, name@, kind) == lookup(opts@, i as int, name@, kind),
        decreases opts.len() - i,
    {
        match &opts[i].value {
            OptionValue::SubCommand(sub) => {
                assert(decreases_to!(opts@ => sub@));
                return find_value(sub, name, kind);
            },
            OptionValue::SubCommandGroup(sub) => {
                assert(decreases_to!(opts@ => sub@));
                return find_value(sub, name, kind);
            },
            _ => {
                let wanted = match (&opts[i].value, kind) {
                    (OptionValue::User(_), ValueKind::User) => true,
                    (OptionValue::Role(_), ValueKind::Role) => true,
                    (OptionValue::String(_), ValueKind::String) => true,
                    (OptionValue::Boolean(_), ValueKind::Boolean) => true,
                    (OptionValue::Integer(_), ValueKind::Integer) => true,
                    _ => false,
                };
                if wanted && str_eq(opts[i].name.as_str(), name) {
                    return Some(copy_leaf(&opts[i].value));
                }
            },
        }
        i += 1;
    }
    None
}

/// The options of a command.
#[derive(Debug)]
pub struct Options {
    pub options: Vec<CommandOption>,
}

impl Options {
    /// The user given as option `name`, if any.
    pub fn get_user(&self, name: &str) -> (r: Option<u64>)
        ensures
            r == (match lookup(self.options@, 0, name@, ValueKind::User) {
                Some(l) => Some(l.1 as u64),
                None => None::<u64>,
            }),
    {
        match find_value(&self.options, name, ValueKind::User) {
            Some(OptionValue::User(u)) => Some(u),
            _ => None,
        }
    }

    /// The role given as option `name`, if any.
    pub fn get_role(&self, name: &str) -> (r: Option<u64>)
        ensures
            r == (match lookup(self.options@, 0, name@, ValueKind::Role) {
                Some(l) => Some(l.1 as u64),
                None => None::<u64>,
            }),
    {
        match find_value(&self.options, name, ValueKind::Role) {
            Some(OptionValue::Role(u)) => Some(u),
            _ => None,
        }
    }

    /// The text given as option `name`, if any.
    pub fn get_string(&self, name: &str) -> (r: Option<String>)
        ensures
            match r {
                Some(s) => lookup(self.options@, 0, name@, ValueKind::String) == Some(
                    (ValueKind::String, 0int, s@),
                ),
                None => lookup(self.options@, 0, name@, ValueKind::String).is_none(),
            },
    {
        match find_value(&self.options, name, ValueKind::String) {
            Some(OptionValue::String(s)) => Some(s),
            _ => None,
        }
    }

    /// The boolean given as option `name`, if any.
    pub fn get_boolean(&self, name: &str) -> (r: Option<bool>)
        ensures
            r == (match lookup(self.options@, 0, name@, ValueKind::Boolean) {
                Some(l) => Some(l.1 == 1),
                None => None::<bool>,
            }),
    {
        match find_value(&self.options, name, ValueKind::Boolean) {
            Some(OptionValue::Boolean(b)) => Some(b),
            _ => None,
        }
    }

    /// The integer given as option `name`, if any.
    pub fn get_integer(&self, name: &str) -> (r: Option<i64>)
        ensures
            r == (match lookup(self.options@, 0, name@, ValueKind::Integer) {
                Some(l) => Some(l.1 as i64),
                None => None::<i64>,
            }),
    {
        match find_value(&self.options, name, ValueKind::Integer) {
            Some(OptionValue::Integer(i)) => Some(i),
            _ => None,
        }
    }
}

} // verus!

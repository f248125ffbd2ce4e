use vstd::prelude::*;

use crate::schema::Schema;
use crate::text::str_eq;

verus! {

/// What a caller grants a skill: its name, whether the user must confirm,
/// the roles (actions) it may take and the path prefixes it may touch.
#[derive(Debug, Clone)]
pub struct SkillPermission {
    pub name: String,
    pub confirmation_required: bool,
    pub roles: Vec<String>,
    pub scopes: Vec<String>,
}

/// How a skill presents itself to a model.
#[derive(Debug, Clone)]
pub struct Skill {
    pub name: String,
    pub description: String,
    pub parameters: Schema,
}

/// The value of an argument of a skill call, as far as skills read it.
#[derive(Debug, Clone)]
pub enum CallValue {
    Text(String),
    Integer(i64),
    Boolean(bool),
    /// A number with a fraction, a list or an object.
    Other,
}

/// A request to run the skill `name` with named arguments (each name at
/// most once).
#[derive(Debug, Clone)]
pub struct Call {
    pub name: String,
    pub arguments: Vec<(String, CallValue)>,
}

/// The index of the first argument called `key`, if any.
pub open spec fn argument_index(args: Seq<(String, CallValue)>, key: Seq<char>) -> Option<int> {
    if exists|i: int| 0 <= i < args.len() && (#[trigger] args[i]).0@ == key {
        Some(choose|i: int| {
            &&& 0 <= i < args.len()
            &&& (#[trigger] args[i]).0@ == key
            &&& forall|j: int| 0 <= j < i ==> (#[trigger] args[j]).0@ != key
        })
    } else {
        None
    }
}

/// The argument called `key`, if any.
pub open spec fn argument(args: Seq<(String, CallValue)>, key: Seq<char>) -> Option<CallValue> {
    match argument_index(args, key) {
        Some(i) => Some(args[i].1),
        None => None,
    }
}

/// The argument `key` if it is text.
pub open spec fn text_argument(args: Seq<(String, CallValue)>, key: Seq<char>) -> Option<Seq<char>> {
    match argument(args, key) {
        Some(CallValue::Text(s)) => Some(s@),
        _ => None,
    }
}

/// The argument `key` if it is an integer.
pub open spec fn integer_argument(args: Seq<(String, CallValue)>, key: Seq<char>) -> Option<i64> {
    match argument(args, key) {
        Some(CallValue::Integer(n)) => Some(n),
        _ => None,
    }
}

/// The argument `key` if it is a boolean.
pub open spec fn boolean_argument(args: Seq<(String, CallValue)>, key: Seq<char>) -> Option<bool> {
    match argument(args, key) {
        Some(CallValue::Boolean(b)) => Some(b),
        _ => None,
    }
}

impl Call {
    /// The argument called `key`.
    pub fn get_argument(&self, key: &str) -> (r: Option<&CallValue>)
        ensures
            match argument(self.arguments@, key@) {
                Some(v) => r == Some(&v),
                None => r is None,
            },
    {
        let mut i: usize = 0;
        while i < self.arguments.len()
            invariant
                i <= self.arguments@.len(),
                forall|j: int| 0 <= j < i ==> (#[trigger] self.arguments@[j]).0@ != key@,
            decreases self.arguments.len() - i,
        {
            if str_eq(self.arguments[i].0.as_str(), key) {
                proof {
                    let args = self.arguments@;
                    assert(exists|k: int| 0 <= k < args.len() && (#[trigger] args[k]).0@ == key@);
                    let c = choose|k: int| {
                        &&& 0 <= k < args.len()
                        &&& (#[trigger] args[k]).0@ == key@
                        &&& forall|j: int| 0 <= j < k ==> (#[trigger] args[j]).0@ != key@
                    };
                    assert(c == i) by {
                        if c < i {
                            assert(args[c].0@ != key@);
                        } else if c > i {
                            assert(args[i as int].0@ != key@);
                        }
                    }
                }
                return Some(&self.arguments[i].1);
            }
            i = i + 1;
        }
        proof {
            let args = self.arguments@;
            if exists|k: int| 0 <= k < args.len() && (#[trigger] args[k]).0@ == key@ {
                let k = choose|k: int| 0 <= k < args.len() && (#[trigger] args[k]).0@ == key@;
                assert(args[k].0@ != key@);
            }
        }
        None
    }

    /// The argument `key` if it is text.
    pub fn text_argument(&self, key: &str) -> (r: Option<String>)
        ensures
            match r {
                Some(s) => text_argument(self.arguments@, key@) == Some(s@),
                None => text_argument(self.arguments@, key@) is None,
            },
    {
        match self.get_argument(key) {
            Some(CallValue::Text(s)) => Some(s.as_str().to_owned()),
            _ => None,
        }
    }

    /// The argument `key` if it is an integer.
    pub fn integer_argument(&self, key: &str) -> (r: Option<i64>)
        ensures
            r == integer_argument(self.arguments@, key@),
    {
        match self.get_argument(key) {
            Some(CallValue::Integer(n)) => Some(*n),
            _ => None,
        }
    }

    /// The argument `key` if it is a boolean.
    pub fn boolean_argument(&self, key: &str) -> (r: Option<bool>)
        ensures
            r == boolean_argument(self.arguments@, key@),
    {
        match self.get_argument(key) {
            Some(CallValue::Boolean(b)) => Some(*b),
            _ => None,
        }
    }
}

} // verus!

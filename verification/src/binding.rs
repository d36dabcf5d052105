//! The boundary toward the host runtime, modelled over plain values.
//!
//! A host value is either text or one of the non-text kinds a caller might
//! pass. The adapter checks that exactly one text argument was supplied and
//! delegates to the core operation; anything else is an invalid argument.

use vstd::prelude::*;

use crate::greeting::greet;
use crate::greeting::spec_greet;

verus! {

/// A caller-supplied value, as the binding layer sees it after the host's
/// representation has been marshalled to plain data.
pub enum HostValue {
    Text(String),
    Integer(i64),
    Boolean(bool),
    Nil,
}

/// The single error kind of the boundary: the caller supplied the wrong
/// number of arguments, or a non-text argument.
#[derive(Clone, Copy, Debug, PartialEq, Eq, Structural)]
pub enum HostError {
    InvalidArgument,
}

/// An argument list the greeting operation accepts: exactly one value,
/// and that value text.
pub open spec fn valid_args(args: Seq<HostValue>) -> bool {
    args.len() == 1 && args[0] is Text
}

/// What a call through the boundary returns, by characters: the greeting for
/// a single text argument, an invalid-argument error for anything else.
pub open spec fn spec_hello_call(args: Seq<HostValue>) -> Result<Seq<char>, HostError> {
    if valid_args(args) {
        Ok(spec_greet(args[0]->Text_0@))
    } else {
        Err(HostError::InvalidArgument)
    }
}

/// A boundary result, by characters: the text payload replaced by its view.
pub open spec fn result_chars(r: Result<String, HostError>) -> Result<Seq<char>, HostError> {
    match r {
        Ok(s) => Ok(s@),
        Err(e) => Err(e),
    }
}

/// The adapter for the greeting operation: checks arity and type, then
/// delegates to `greet`. Succeeds exactly on a single text argument; a call
/// with zero or several arguments, or with a non-text argument, fails with
/// `InvalidArgument`.
pub fn hello_adapter(args: &Vec<HostValue>) -> (r: Result<String, HostError>)
    ensures
        result_chars(r) == spec_hello_call(args@),
{
    if args.len() != 1 {
        return Err(HostError::InvalidArgument);
    }
    match &args[0] {
        HostValue::Text(subject) => Ok(greet(subject.as_str())),
        _ => Err(HostError::InvalidArgument),
    }
}

/// An operation the registry can point at. The module exposes a single one,
/// the greeting.
#[derive(Clone, Copy, Debug, PartialEq, Eq, Structural)]
pub enum OpCode {
    Hello,
}

/// One row of the registration table: a two-part name bound to an operation.
pub struct Entry {
    pub module_name: String,
    pub op_name: String,
    pub op: OpCode,
}

/// Whether an entry is registered under the given two-part name.
pub open spec fn entry_matches(e: Entry, module: Seq<char>, name: Seq<char>) -> bool {
    e.module_name@ == module && e.op_name@ == name
}

/// The operation the table binds to a two-part name: that of the first
/// matching entry, none when no entry matches.
pub open spec fn spec_lookup(entries: Seq<Entry>, module: Seq<char>, name: Seq<char>) -> Option<
    OpCode,
>
    decreases entries.len(),
{
    if entries.len() == 0 {
        None
    } else if entry_matches(entries[0], module, name) {
        Some(entries[0].op)
    } else {
        spec_lookup(entries.subrange(1, entries.len() as int), module, name)
    }
}

/// When no entry before position `i` matches, the lookup is decided at `i`:
/// a match there is the first one, and `i` at the end means no match at all.
proof fn lemma_lookup_first_match(entries: Seq<Entry>, module: Seq<char>, name: Seq<char>, i: int)
    requires
        0 <= i <= entries.len(),
        forall|j: int| 0 <= j < i ==> !entry_matches(entries[j], module, name),
    ensures
        i == entries.len() ==> spec_lookup(entries, module, name) is None,
        i < entries.len() && entry_matches(entries[i], module, name) ==> spec_lookup(
            entries,
            module,
            name,
        ) == Some(entries[i].op),
    decreases entries.len(),
{
    if entries.len() == 0 {
    } else if i == 0 {
    } else {
        let rest = entries.subrange(1, entries.len() as int);
        assert(forall|j: int| 0 <= j < i - 1 ==> rest[j] == entries[j + 1]);
        lemma_lookup_first_match(rest, module, name, i - 1);
    }
}

/// When the lookup finds nothing, no entry of the table matches the name.
proof fn lemma_lookup_none(entries: Seq<Entry>, module: Seq<char>, name: Seq<char>)
    requires
        spec_lookup(entries, module, name) is None,
    ensures
        forall|j: int| 0 <= j < entries.len() ==> !entry_matches(entries[j], module, name),
    decreases entries.len(),
{
    if entries.len() == 0 {
    } else {
        let rest = entries.subrange(1, entries.len() as int);
        lemma_lookup_none(rest, module, name);
        assert(forall|j: int| 1 <= j < entries.len() ==> entries[j] == rest[j - 1]);
    }
}

/// The registration table through which a host runtime reaches the module's
/// operations by a two-part name.
pub struct Registry {
    entries: Vec<Entry>,
}

impl Registry {
    /// The table's rows, in registration order.
    pub closed spec fn view(&self) -> Seq<Entry> {
        self.entries@
    }

    /// An empty table: nothing registered yet.
    pub fn new() -> (r: Registry)
        ensures
            r@ == Seq::<Entry>::empty(),
    {
        Registry { entries: Vec::new() }
    }

    /// How many rows the table holds.
    pub fn len(&self) -> (n: usize)
        ensures
            n == self@.len(),
    {
        self.entries.len()
    }

    /// The operation registered under `module.name`, if any.
    fn lookup(&self, module: &String, name: &String) -> (r: Option<OpCode>)
        ensures
            r == spec_lookup(self@, module@, name@),
    {
        let mut i: usize = 0;
        while i < self.entries.len()
            invariant
                i <= self.entries.len(),
                forall|j: int| 0 <= j < i ==> !entry_matches(self.entries@[j], module@, name@),
            decreases self.entries.len() - i,
        {
            let e = &self.entries[i];
            if e.module_name == *module && e.op_name == *name {
                proof {
                    lemma_lookup_first_match(self@, module@, name@, i as int);
                }
                return Some(e.op);
            }
            i = i + 1;
        }
        proof {
            lemma_lookup_first_match(self@, module@, name@, self@.len() as int);
        }
        None
    }

    /// The initialization routine run once at process startup: registers the
    /// fixed table, the greeting operation under `Elelem.hello`. Idempotent:
    /// when that name is already bound, the table is left as it was; when it
    /// is not, exactly one row is appended.
    pub fn init(&mut self)
        ensures
            spec_lookup(final(self)@, "Elelem"@, "hello"@) == Some(OpCode::Hello),
            spec_lookup(old(self)@, "Elelem"@, "hello"@) is Some ==> final(self)@ == old(self)@,
            spec_lookup(old(self)@, "Elelem"@, "hello"@) is None ==> ({
                &&& final(self)@.len() == old(self)@.len() + 1
                &&& final(self)@.subrange(0, old(self)@.len() as int) == old(self)@
                &&& entry_matches(final(self)@.last(), "Elelem"@, "hello"@)
                &&& final(self)@.last().op == OpCode::Hello
            }),
    {
        let module_name = String::from_str("Elelem");
        let op_name = String::from_str("hello");
        match self.lookup(&module_name, &op_name) {
            Some(_op) => {},
            None => {
                proof {
                    lemma_lookup_none(self@, "Elelem"@, "hello"@);
                }
                self.entries.push(
                    Entry { module_name, op_name, op: OpCode::Hello },
                );
                proof {
                    lemma_lookup_first_match(
                        self@,
                        "Elelem"@,
                        "hello"@,
                        self@.len() - 1,
                    );
                    assert(self@.subrange(0, old(self)@.len() as int) =~= old(self)@);
                }
            },
        }
    }

    /// Invokes the operation registered under `module.name` with `args`:
    /// none when the name is not bound, otherwise the bound operation's
    /// result, the greeting or an invalid-argument error.
    pub fn call(&self, module: &String, name: &String, args: &Vec<HostValue>) -> (r: Option<
        Result<String, HostError>,
    >)
        ensures
            r is Some <==> spec_lookup(self@, module@, name@) is Some,
            r matches Some(res) ==> result_chars(res) == spec_hello_call(args@),
    {
        match self.lookup(module, name) {
            Some(OpCode::Hello) => Some(hello_adapter(args)),
            None => None,
        }
    }
}

} // verus!

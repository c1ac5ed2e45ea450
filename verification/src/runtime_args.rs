//! Runtime arguments: what the argument bytes of a deploy item decode to.

use crate::error::DecodeError;
use casper_types::bytesrepr::deserialize;
use casper_types::bytesrepr::Error as CodecError;
use casper_types::RuntimeArgs as CodecArgs;
use vstd::prelude::*;

verus! {

/// One argument: its name, the name of its declared type, and the bytes of
/// its value.
#[derive(Clone, Debug, PartialEq, Eq)]
pub struct NamedArg {
    pub name: String,
    pub cl_type: String,
    pub bytes: Vec<u8>,
}

impl View for NamedArg {
    type V = (Seq<char>, Seq<char>, Seq<u8>);

    open spec fn view(&self) -> (Seq<char>, Seq<char>, Seq<u8>) {
        (self.name@, self.cl_type@, self.bytes@)
    }
}

/// The arguments of one invocation, in the order in which they were encoded.
#[derive(Clone, Debug, PartialEq, Eq)]
pub struct RuntimeArgs {
    pub named_args: Vec<NamedArg>,
}

impl View for RuntimeArgs {
    type V = Seq<(Seq<char>, Seq<char>, Seq<u8>)>;

    open spec fn view(&self) -> Seq<(Seq<char>, Seq<char>, Seq<u8>)> {
        Seq::new(self.named_args@.len(), |i: int| self.named_args@[i]@)
    }
}

/// The index of the first argument called `name`, or the number of
/// arguments where none is.
pub open spec fn first_named(args: Seq<(Seq<char>, Seq<char>, Seq<u8>)>, name: Seq<char>) -> int
    decreases args.len(),
{
    if args.len() == 0 || args[0].0 == name {
        0
    } else {
        1 + first_named(args.skip(1), name)
    }
}

/// `first_named` is an index of an argument of that name, or the length,
/// and no argument before it has the name.
pub proof fn lemma_first_named(args: Seq<(Seq<char>, Seq<char>, Seq<u8>)>, name: Seq<char>)
    ensures
        0 <= first_named(args, name) <= args.len(),
        first_named(args, name) < args.len() ==> args[first_named(args, name)].0 == name,
        forall|j: int| 0 <= j < first_named(args, name) ==> (#[trigger] args[j]).0 != name,
    decreases args.len(),
{
    if args.len() == 0 || args[0].0 == name {
    } else {
        let rest = args.skip(1);
        lemma_first_named(rest, name);
        assert forall|j: int| 0 <= j < first_named(args, name) implies (#[trigger] args[j]).0
            != name by {
            if j > 0 {
                assert(args[j] == rest[j - 1]);
            }
        }
    }
}

/// An index below which no argument has the name, and which is the length
/// or holds the name, is `first_named`.
pub proof fn lemma_first_named_is(
    args: Seq<(Seq<char>, Seq<char>, Seq<u8>)>,
    name: Seq<char>,
    i: int,
)
    requires
        0 <= i <= args.len(),
        forall|j: int| 0 <= j < i ==> (#[trigger] args[j]).0 != name,
        i < args.len() ==> args[i].0 == name,
    ensures
        first_named(args, name) == i,
{
    lemma_first_named(args, name);
}

impl RuntimeArgs {
    /// The number of arguments.
    pub fn len(&self) -> (n: usize)
        ensures
            n == self@.len(),
    {
        self.named_args.len()
    }

    /// Returns the first argument called exactly `name`, or `None` where no
    /// argument has that name.
    pub fn get(&self, name: &String) -> (arg: Option<&NamedArg>)
        ensures
            match arg {
                Some(found) => first_named(self@, name@) < self@.len() && *found
                    == self.named_args@[first_named(self@, name@)],
                None => first_named(self@, name@) == self@.len(),
            },
    {
        let mut i: usize = 0;
        while i < self.named_args.len()
            invariant
                i <= self.named_args.len(),
                forall|j: int| 0 <= j < i ==> (#[trigger] self@[j]).0 != name@,
            decreases self.named_args.len() - i,
        {
            if self.named_args[i].name == *name {
                proof {
                    assert(self@[i as int].0 == name@);
                    lemma_first_named_is(self@, name@, i as int);
                }
                return Some(&self.named_args[i]);
            }
            assert(self@[i as int].0 != name@);
            i += 1;
        }
        proof {
            lemma_first_named_is(self@, name@, i as int);
        }
        None
    }
}

/// What the argument codec makes of `bytes`: the decoded arguments, each as
/// its name, the name of its type and the bytes of its value, or the reason
/// for which `bytes` is not an encoding of runtime arguments.
pub uninterp spec fn decoded_runtime_args(bytes: Seq<u8>) -> Result<
    Seq<(Seq<char>, Seq<char>, Seq<u8>)>,
    DecodeError,
>;

/// Calls `casper_types::bytesrepr::deserialize` for
/// `casper_types::RuntimeArgs`. Nothing is proved of this function: it is
/// taken on trust that the codec's answer depends on the bytes alone, and
/// that answer is called `decoded_runtime_args`. The arguments come back in
/// the codec's order, each type by the name the codec prints for it.
#[verifier::external_body]
pub(crate) fn deserialize_runtime_args(bytes: Vec<u8>) -> (res: Result<RuntimeArgs, DecodeError>)
    ensures
        match res {
            Ok(args) => decoded_runtime_args(bytes@) == Ok::<
                Seq<(Seq<char>, Seq<char>, Seq<u8>)>,
                DecodeError,
            >(args@),
            Err(e) => decoded_runtime_args(bytes@) == Err::<
                Seq<(Seq<char>, Seq<char>, Seq<u8>)>,
                DecodeError,
            >(e),
        },
{
    match deserialize::<CodecArgs>(bytes) {
        Ok(args) => Ok(RuntimeArgs { named_args: args.named_args().map(|a| NamedArg {
            name: a.name().to_string(),
            cl_type: a.cl_value().cl_type().to_string(),
            bytes: a.cl_value().inner_bytes().clone(),
        }).collect() }),
        Err(CodecError::EarlyEndOfStream) => Err(DecodeError::EarlyEndOfStream),
        Err(CodecError::Formatting) => Err(DecodeError::Formatting),
        Err(CodecError::LeftOverBytes) => Err(DecodeError::LeftOverBytes),
        Err(CodecError::OutOfMemory) => Err(DecodeError::OutOfMemory),
        Err(CodecError::NotRepresentable) => Err(DecodeError::NotRepresentable),
        Err(CodecError::ExceededRecursionDepth) => Err(DecodeError::ExceededRecursionDepth),
        Err(_) => Err(DecodeError::Other),
    }
}

} // verus!

use vstd::prelude::*;

use crate::delegate::ExecuTorchDelegate;
use crate::et_error::ExecuTorchError;
use crate::tensor::{DataType, TensorShape};
use crate::text::{decimal, with_number};

verus! {

/// Fewest bytes a serialized ExecuTorch program can have: the runtime reads this much
/// of the file's head before it looks at anything else.
pub const MIN_PROGRAM_BYTES: usize = 64;

/// The four-byte file identifier of a serialized program, stored at offset 4.
pub open spec fn program_identifier() -> Seq<u8> {
    seq![0x45u8, 0x54u8, 0x31u8, 0x32u8]
}

/// Whether `bytes` start like a serialized program: long enough, and carrying the
/// `ET12` identifier at offset 4.
pub open spec fn valid_program_header(bytes: Seq<u8>) -> bool {
    &&& bytes.len() >= MIN_PROGRAM_BYTES
    &&& bytes.subrange(4, 8) == program_identifier()
}

/// Message for a buffer shorter than a program header.
pub open spec fn too_small_message(len: nat) -> Seq<char> {
    "Program data too small: need at least 64 bytes, got "@ + decimal(len)
}

/// Message for a header without the program identifier.
pub open spec fn bad_identifier_message() -> Seq<char> {
    "Program data lacks the ET12 file identifier"@
}

/// Checks the head of a serialized program before it is handed to the runtime.
pub fn validate_program_bytes(bytes: &[u8]) -> (r: Result<(), ExecuTorchError>)
    ensures
        r is Ok <==> valid_program_header(bytes@),
        bytes@.len() < MIN_PROGRAM_BYTES ==> (r matches Err(ExecuTorchError::InvalidProgram(m))
            && m@ == too_small_message(bytes@.len())),
        bytes@.len() >= MIN_PROGRAM_BYTES && !valid_program_header(bytes@) ==> (r matches Err(
            ExecuTorchError::InvalidProgram(m),
        ) && m@ == bad_identifier_message()),
{
    if bytes.len() < MIN_PROGRAM_BYTES {
        let m = with_number(
            "Program data too small: need at least 64 bytes, got ",
            bytes.len() as u64,
        );
        return Err(ExecuTorchError::InvalidProgram(m));
    }
    if bytes[4] != 0x45u8 || bytes[5] != 0x54u8 || bytes[6] != 0x31u8 || bytes[7] != 0x32u8 {
        return Err(
            ExecuTorchError::InvalidProgram(
                String::from_str("Program data lacks the ET12 file identifier"),
            ),
        );
    }
    assert(bytes@.subrange(4, 8) =~= program_identifier());
    Ok(())
}

/// Name, shape and element type of one method input or output.
#[derive(Clone, Debug)]
pub struct TensorDescriptor {
    pub name: String,
    pub shape: TensorShape,
    pub dtype: DataType,
}

impl TensorDescriptor {
    pub fn new(name: String, shape: TensorShape, dtype: DataType) -> (r: Self)
        ensures
            r.name == name,
            r.shape == shape,
            r.dtype == dtype,
    {
        TensorDescriptor { name, shape, dtype }
    }
}

/// Signature of a method of a program: its inputs, its outputs and the delegate it
/// was lowered to, if known.
#[derive(Clone, Debug)]
pub struct MethodDescriptor {
    pub name: String,
    pub inputs: Vec<TensorDescriptor>,
    pub outputs: Vec<TensorDescriptor>,
    pub delegate: Option<ExecuTorchDelegate>,
}

impl MethodDescriptor {
    pub fn new(name: String, inputs: Vec<TensorDescriptor>, outputs: Vec<TensorDescriptor>) -> (r:
        Self)
        ensures
            r.name == name,
            r.inputs == inputs,
            r.outputs == outputs,
            r.delegate is None,
    {
        MethodDescriptor { name, inputs, outputs, delegate: None }
    }
}

/// The methods of a program, keyed by name.
#[derive(Debug)]
pub struct ProgramMetadata {
    methods: Vec<MethodDescriptor>,
}

/// Whether two entries of `ms` never share a name.
pub open spec fn names_unique(ms: Seq<MethodDescriptor>) -> bool {
    forall|i: int, j: int|
        0 <= i < ms.len() && 0 <= j < ms.len() && i != j ==> #[trigger] ms[i].name@
            != #[trigger] ms[j].name@
}

/// The entries of `ms` as a map from name to method.
pub open spec fn methods_map(ms: Seq<MethodDescriptor>) -> Map<Seq<char>, MethodDescriptor> {
    Map::new(
        |k: Seq<char>| exists|i: int| 0 <= i < ms.len() && #[trigger] ms[i].name@ == k,
        |k: Seq<char>| ms[choose|i: int| 0 <= i < ms.len() && #[trigger] ms[i].name@ == k],
    )
}

impl View for ProgramMetadata {
    type V = Map<Seq<char>, MethodDescriptor>;

    closed spec fn view(&self) -> Map<Seq<char>, MethodDescriptor> {
        methods_map(self.methods@)
    }
}

impl ProgramMetadata {
    #[verifier::type_invariant]
    spec fn inv(&self) -> bool {
        names_unique(self.methods@)
    }

    pub fn new() -> (r: Self)
        ensures
            r@ == Map::<Seq<char>, MethodDescriptor>::empty(),
    {
        let r = ProgramMetadata { methods: Vec::new() };
        assert(r@ =~= Map::<Seq<char>, MethodDescriptor>::empty());
        r
    }

    /// Index of the entry named `name`, if any.
    fn find(&self, name: &String) -> (r: Option<usize>)
        ensures
            r matches Some(i) ==> i < self.methods@.len() && self.methods@[i as int].name@
                == name@,
            r is None ==> forall|i: int|
                0 <= i < self.methods@.len() ==> #[trigger] self.methods@[i].name@ != name@,
    {
        let n = self.methods.len();
        for i in 0..n
            invariant
                n == self.methods@.len(),
                forall|j: int| 0 <= j < i ==> #[trigger] self.methods@[j].name@ != name@,
        {
            if self.methods[i].name == *name {
                return Some(i);
            }
        }
        None
    }

    /// Adds `method`, replacing any method of the same name.
    pub fn add_method(&mut self, method: MethodDescriptor)
        ensures
            final(self)@ == old(self)@.insert(method.name@, method),
    {
        proof {
            use_type_invariant(&*self);
        }
        let ghost old_ms = self.methods@;
        let key = method.name.clone();
        let found = self.find(&key);
        let mut methods: Vec<MethodDescriptor> = Vec::new();
        std::mem::swap(&mut methods, &mut self.methods);
        match found {
            Some(i) => {
                methods.set(i, method);
                proof {
                    let ms = methods@;
                    assert forall|a: int, b: int|
                        0 <= a < ms.len() && 0 <= b < ms.len() && a != b implies #[trigger] ms[a].name@
                        != #[trigger] ms[b].name@ by {
                        if a != i && b != i {
                            assert(old_ms[a].name@ != old_ms[b].name@);
                        } else if a == i {
                            assert(old_ms[b].name@ != old_ms[i as int].name@);
                        } else {
                            assert(old_ms[a].name@ != old_ms[i as int].name@);
                        }
                    }
                    lemma_map_after_set(old_ms, i as int, method);
                }
            },
            None => {
                methods.push(method);
                proof {
                    lemma_map_after_push(old_ms, method);
                }
            },
        }
        self.methods = methods;
    }

    /// The method named `name`, if the program has one.
    pub fn method(&self, name: &str) -> (r: Option<&MethodDescriptor>)
        ensures
            r is Some <==> self@.contains_key(name@),
            r matches Some(m) ==> *m == self@[name@],
    {
        proof {
            use_type_invariant(self);
        }
        let key = String::from_str(name);
        match self.find(&key) {
            Some(i) => {
                proof {
                    lemma_map_lookup(self.methods@, i as int);
                }
                Some(&self.methods[i])
            },
            None => None,
        }
    }
}

proof fn lemma_map_lookup(ms: Seq<MethodDescriptor>, i: int)
    requires
        names_unique(ms),
        0 <= i < ms.len(),
    ensures
        methods_map(ms).contains_key(ms[i].name@),
        methods_map(ms)[ms[i].name@] == ms[i],
{
    let k = ms[i].name@;
    assert(ms[i].name@ == k);
    let j = choose|j: int| 0 <= j < ms.len() && #[trigger] ms[j].name@ == k;
    assert(j == i);
}

proof fn lemma_map_after_push(ms: Seq<MethodDescriptor>, m: MethodDescriptor)
    requires
        names_unique(ms),
        forall|i: int| 0 <= i < ms.len() ==> #[trigger] ms[i].name@ != m.name@,
    ensures
        names_unique(ms.push(m)),
        methods_map(ms.push(m)) == methods_map(ms).insert(m.name@, m),
{
    let ns = ms.push(m);
    assert(names_unique(ns)) by {
        assert forall|a: int, b: int|
            0 <= a < ns.len() && 0 <= b < ns.len() && a != b implies #[trigger] ns[a].name@
            != #[trigger] ns[b].name@ by {
            if a < ms.len() && b < ms.len() {
                assert(ms[a].name@ != ms[b].name@);
            } else if a < ms.len() {
                assert(ms[a].name@ != m.name@);
            } else {
                assert(ms[b].name@ != m.name@);
            }
        }
    }
    let lhs = methods_map(ns);
    let rhs = methods_map(ms).insert(m.name@, m);
    assert forall|k: Seq<char>| lhs.contains_key(k) <==> rhs.contains_key(k) by {
        if lhs.contains_key(k) {
            let i = choose|i: int| 0 <= i < ns.len() && #[trigger] ns[i].name@ == k;
            if i < ms.len() {
                assert(ms[i].name@ == k);
            }
        }
        if rhs.contains_key(k) && k != m.name@ {
            let i = choose|i: int| 0 <= i < ms.len() && #[trigger] ms[i].name@ == k;
            assert(ns[i].name@ == k);
        }
        if k == m.name@ {
            assert(ns[ms.len() as int].name@ == k);
        }
    }
    assert forall|k: Seq<char>| #[trigger] lhs.contains_key(k) implies lhs[k] == rhs[k] by {
        let i = choose|i: int| 0 <= i < ns.len() && #[trigger] ns[i].name@ == k;
        lemma_map_lookup(ns, i);
        if i < ms.len() {
            lemma_map_lookup(ms, i);
        }
    }
    assert(lhs =~= rhs);
}

proof fn lemma_map_after_set(ms: Seq<MethodDescriptor>, i: int, m: MethodDescriptor)
    requires
        names_unique(ms),
        0 <= i < ms.len(),
        ms[i].name@ == m.name@,
        names_unique(ms.update(i, m)),
    ensures
        methods_map(ms.update(i, m)) == methods_map(ms).insert(m.name@, m),
{
    let ns = ms.update(i, m);
    let lhs = methods_map(ns);
    let rhs = methods_map(ms).insert(m.name@, m);
    assert forall|k: Seq<char>| lhs.contains_key(k) <==> rhs.contains_key(k) by {
        if lhs.contains_key(k) {
            let j = choose|j: int| 0 <= j < ns.len() && #[trigger] ns[j].name@ == k;
            if j != i {
                assert(ms[j].name@ == k);
            }
        }
        if rhs.contains_key(k) && k != m.name@ {
            let j = choose|j: int| 0 <= j < ms.len() && #[trigger] ms[j].name@ == k;
            assert(ns[j].name@ == k);
        }
        if k == m.name@ {
            assert(ns[i].name@ == k);
        }
    }
    assert forall|k: Seq<char>| #[trigger] lhs.contains_key(k) implies lhs[k] == rhs[k] by {
        let j = choose|j: int| 0 <= j < ns.len() && #[trigger] ns[j].name@ == k;
        lemma_map_lookup(ns, j);
        if j != i {
            lemma_map_lookup(ms, j);
        }
    }
    assert(lhs =~= rhs);
}

/// Adding a method makes it the one found under its name, and leaves every other
/// name as it was.
pub proof fn lemma_add_then_lookup(
    before: Map<Seq<char>, MethodDescriptor>,
    m: MethodDescriptor,
    other: Seq<char>,
)
    requires
        other != m.name@,
    ensures
        before.insert(m.name@, m).contains_key(m.name@),
        before.insert(m.name@, m)[m.name@] == m,
        before.insert(m.name@, m).contains_key(other) == before.contains_key(other),
        before.contains_key(other) ==> before.insert(m.name@, m)[other] == before[other],
{
}

} // verus!

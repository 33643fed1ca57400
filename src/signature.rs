use vstd::prelude::*;

verus! {

/// semver's `Version`, carried through a type descriptor as it was given;
/// nothing here reads inside it.
#[verifier::external_type_specification]
#[verifier::external_body]
pub struct ExVersion(semver::Version);

/// Relies on semver's derived `Clone` for `Version`, which `Type`'s own
/// derived `Clone` calls; nothing is claimed of the copy.
pub assume_specification[ <semver::Version as std::clone::Clone>::clone ](
    v: &semver::Version,
) -> semver::Version;

/// A semantic type of a program argument or return value.
#[derive(Clone, Debug, PartialEq, Eq)]
pub struct Type {
    /// The fully qualified name of the type.
    pub name: String,
    /// The version of the type.
    pub version: semver::Version,
    /// Whether values of the type are encrypted (private) or plain.
    pub is_encrypted: bool,
}

/// A declared return value: its type and the number of ciphertexts that
/// back it (a composite type may take more than one).
#[derive(Clone, Debug, PartialEq, Eq)]
pub struct ReturnDescriptor {
    pub ty: Type,
    pub num_ciphertexts: usize,
}

/// The type signature of a compiled program.
#[derive(Clone, Debug, PartialEq, Eq)]
pub struct CallSignature {
    /// The type of each argument, in order.
    pub arguments: Vec<Type>,
    /// The type of each return value, in order (one per tuple element when
    /// the program returns a tuple).
    pub returns: Vec<Type>,
    /// The number of ciphertexts behind each return value.
    pub num_ciphertexts: Vec<usize>,
}

/// A key that a program needs in order to run.
#[derive(Clone, Copy, Debug, PartialEq, Eq, Structural)]
pub enum RequiredKeys {
    /// The program performs batched shifts and needs Galois keys.
    Galois,
    /// The program relinearizes and needs relinearization keys.
    Relin,
    /// The program needs the public encryption key.
    PublicKey,
}

/// The types of the declared return values, in order.
pub open spec fn return_types(values: Seq<ReturnDescriptor>) -> Seq<Type> {
    values.map_values(|d: ReturnDescriptor| d.ty)
}

/// The ciphertext counts of the declared return values, in order.
pub open spec fn return_ciphertexts(values: Seq<ReturnDescriptor>) -> Seq<usize> {
    values.map_values(|d: ReturnDescriptor| d.num_ciphertexts)
}

/// The call signature of a program from its declared argument types and
/// return values.
pub fn capture_signature(arguments: Vec<Type>, return_values: Vec<ReturnDescriptor>) -> (r:
    CallSignature)
    ensures
        r.arguments@ == arguments@,
        r.returns@ == return_types(return_values@),
        r.num_ciphertexts@ == return_ciphertexts(return_values@),
{
    let ghost declared = return_values@;
    let mut rest = return_values;
    let mut types: Vec<Type> = Vec::new();
    let mut counts: Vec<usize> = Vec::new();
    while rest.len() > 0
        invariant
            types@.len() + rest@.len() == declared.len(),
            rest@ == declared.subrange(types@.len() as int, declared.len() as int),
            types@ == return_types(declared.subrange(0, types@.len() as int)),
            counts@ == return_ciphertexts(declared.subrange(0, types@.len() as int)),
        decreases rest@.len(),
    {
        let ghost k = types@.len() as int;
        let d = rest.remove(0);
        assert(d == declared[k]);
        types.push(d.ty);
        counts.push(d.num_ciphertexts);
        assert(declared.subrange(0, k + 1) == declared.subrange(0, k).push(declared[k]));
        assert(types@ =~= return_types(declared.subrange(0, k + 1)));
        assert(counts@ =~= return_ciphertexts(declared.subrange(0, k + 1)));
        assert(rest@ =~= declared.subrange(k + 1, declared.len() as int));
    }
    assert(declared.subrange(0, declared.len() as int) == declared);
    CallSignature { arguments, returns: types, num_ciphertexts: counts }
}

} // verus!

//! The `Shape` contract for types that may be persisted, and the syntactic
//! audit that a derived `Shape` applies to a type's fields before accepting
//! it.
//!
//! The audit works on a model of the derive input: each syntax node that an
//! error can point at carries the `id` that the caller gave it, and a
//! violation names the node it was found at.
use vstd::prelude::*;
use vstd::string::StringExecFns;
use crate::text::same_text;

verus! {

/// Types whose layout is deterministic, stable between builds and fit to be
/// read back from static bytes: no raw pointers, no non-`'static` references,
/// no dynamic dispatch, no reference counting, no cells or locks, no system
/// handles.
pub trait Shape {}

impl Shape for i8 {}
impl Shape for i16 {}
impl Shape for i32 {}
impl Shape for i64 {}
impl Shape for i128 {}
impl Shape for isize {}
impl Shape for u8 {}
impl Shape for u16 {}
impl Shape for u32 {}
impl Shape for u64 {}
impl Shape for u128 {}
impl Shape for usize {}
impl Shape for bool {}
impl Shape for char {}
impl Shape for String {}
impl Shape for () {}

impl<T: Shape> Shape for Vec<T> {}
impl<T: Shape> Shape for Option<T> {}
impl<T: Shape, E: Shape> Shape for Result<T, E> {}
impl<T: Shape> Shape for Box<T> {}

impl<K: Shape, V: Shape> Shape for std::collections::HashMap<K, V> {}
impl<T: Shape> Shape for std::collections::HashSet<T> {}
impl<K: Shape, V: Shape> Shape for std::collections::BTreeMap<K, V> {}
impl<T: Shape> Shape for std::collections::BTreeSet<T> {}

impl<T: Shape> Shape for [T] {}
impl<T: Shape, const N: usize> Shape for [T; N] {}

impl Shape for &'static str {}
impl<T: Shape + ?Sized> Shape for &'static T {}

/// A lifetime written in a reference type.
pub struct LifetimeSyntax {
    pub id: usize,
    /// The lifetime's name without the leading `'`.
    pub ident: String,
}

/// The last segment of a type path, with the types among its generic
/// arguments in order.
pub struct PathSegmentSyntax {
    pub id: usize,
    pub ident: String,
    pub type_args: Vec<TypeSyntax>,
}

/// The forms of a field's type that the audit tells apart.
pub enum TypeSyntax {
    /// A raw pointer `*const T` or `*mut T`.
    Ptr { id: usize },
    /// A trait object `dyn Trait`.
    TraitObject { id: usize },
    /// A reference `&'a T`.
    Reference { id: usize, lifetime: Option<LifetimeSyntax>, elem: Box<TypeSyntax> },
    /// A path type, given by its last segment (none for an empty path).
    Path { last_segment: Option<PathSegmentSyntax> },
    /// An array `[T; N]`.
    Array { elem: Box<TypeSyntax> },
    /// A slice `[T]`.
    Slice { elem: Box<TypeSyntax> },
    /// A tuple `(T1, T2, ...)`, its element types in order.
    Tuple { elems: Vec<TypeSyntax> },
    /// A parenthesised or invisibly grouped type `(T)`.
    Paren { elem: Box<TypeSyntax> },
    /// Any other form of type.
    Other,
}

/// The data of a derive input: the field types of a struct, those of each
/// variant of an enum, or a union.
pub enum ItemSyntax {
    Struct { fields: Vec<TypeSyntax> },
    Enum { variants: Vec<Vec<TypeSyntax>> },
    Union { id: usize },
}

/// A construct that breaks the `Shape` contract, with the node it was found
/// at.
pub enum ShapeViolation {
    RawPointer { at: usize },
    DynamicDispatch { at: usize },
    NonStaticLifetime { at: usize },
    MissingLifetime { at: usize },
    ForbiddenType { at: usize, name: String },
    Union { at: usize },
}

/// Type names that break the `Shape` contract wherever they appear.
pub open spec fn is_forbidden_name(name: Seq<char>) -> bool {
    ||| name == "Rc"@
    ||| name == "Arc"@
    ||| name == "Weak"@
    ||| name == "RefCell"@
    ||| name == "Cell"@
    ||| name == "Mutex"@
    ||| name == "RwLock"@
    ||| name == "File"@
    ||| name == "TcpStream"@
    ||| name == "UdpSocket"@
    ||| name == "Sender"@
    ||| name == "Receiver"@
}

/// The verdict of the audit on a type: the first violation met, searching
/// references before their referent, and the generic arguments of a path,
/// the elements of a tuple and the element of an array, slice or
/// parenthesised type, left to right.
pub open spec fn type_audit(ty: TypeSyntax) -> Result<(), ShapeViolation>
    decreases ty,
{
    match ty {
        TypeSyntax::Ptr { id } => Err(ShapeViolation::RawPointer { at: id }),
        TypeSyntax::TraitObject { id } => Err(ShapeViolation::DynamicDispatch { at: id }),
        TypeSyntax::Reference { id, lifetime, elem } => match lifetime {
            Some(l) => if l.ident@ != "static"@ {
                Err(ShapeViolation::NonStaticLifetime { at: l.id })
            } else {
                type_audit(*elem)
            },
            None => Err(ShapeViolation::MissingLifetime { at: id }),
        },
        TypeSyntax::Path { last_segment } => match last_segment {
            Some(seg) => if is_forbidden_name(seg.ident@) {
                Err(ShapeViolation::ForbiddenType { at: seg.id, name: seg.ident })
            } else {
                types_audit(seg.type_args@)
            },
            None => Ok(()),
        },
        TypeSyntax::Array { elem } => type_audit(*elem),
        TypeSyntax::Slice { elem } => type_audit(*elem),
        TypeSyntax::Tuple { elems } => types_audit(elems@),
        TypeSyntax::Paren { elem } => type_audit(*elem),
        TypeSyntax::Other => Ok(()),
    }
}

/// Auditing a list of types finds the first violation in order: if every
/// type passes, the list passes; if the types before position `i` pass and
/// the type at `i` does not, the list fails with that type's violation.
pub proof fn lemma_types_audit_first_violation(types: Seq<TypeSyntax>)
    ensures
        (forall|i: int| 0 <= i < types.len() ==> (#[trigger] type_audit(types[i])) is Ok) ==> types_audit(types) is Ok,
        forall|i: int|
            0 <= i < types.len() && (forall|j: int| 0 <= j < i ==> (#[trigger] type_audit(types[j])) is Ok) && (
            #[trigger] type_audit(types[i])) is Err ==> types_audit(types) == type_audit(types[i]),
    decreases types.len(),
{
    if types.len() > 0 {
        let rest = types.drop_first();
        lemma_types_audit_first_violation(rest);
        assert forall|i: int|
            0 <= i < types.len() && (forall|j: int| 0 <= j < i ==> (#[trigger] type_audit(types[j])) is Ok) && (
            #[trigger] type_audit(types[i])) is Err implies types_audit(types) == type_audit(types[i]) by {
            if i > 0 {
                assert(type_audit(types[0]) is Ok);
                assert(rest[i - 1] == types[i]);
                assert forall|j: int| 0 <= j < i - 1 implies (#[trigger] type_audit(rest[j])) is Ok by {
                    assert(rest[j] == types[j + 1]);
                }
            }
        }
        if forall|i: int| 0 <= i < types.len() ==> (#[trigger] type_audit(types[i])) is Ok {
            assert(type_audit(types[0]) is Ok);
            assert forall|i: int| 0 <= i < rest.len() implies (#[trigger] type_audit(rest[i])) is Ok by {
                assert(rest[i] == types[i + 1]);
            }
        }
    }
}

/// Every generic argument of a path type whose name is not forbidden is
/// audited: the path passes exactly when all its arguments pass, and
/// otherwise fails with the violation of the first argument that fails.
pub proof fn lemma_path_audits_every_argument(seg: PathSegmentSyntax)
    requires
        !is_forbidden_name(seg.ident@),
    ensures
        ({
            let ty = TypeSyntax::Path { last_segment: Some(seg) };
            let args = seg.type_args@;
            &&& (forall|i: int| 0 <= i < args.len() ==> (#[trigger] type_audit(args[i])) is Ok) ==> type_audit(ty) is Ok
            &&& forall|i: int|
                0 <= i < args.len() && (#[trigger] type_audit(args[i])) is Err && (forall|j: int|
                    0 <= j < i ==> (#[trigger] type_audit(args[j])) is Ok) ==> type_audit(ty) == type_audit(args[i])
            &&& forall|i: int| 0 <= i < args.len() && (#[trigger] type_audit(args[i])) is Err ==> type_audit(ty) is Err
        }),
{
    let args = seg.type_args@;
    lemma_types_audit_first_violation(args);
    assert forall|i: int| 0 <= i < args.len() && (#[trigger] type_audit(args[i])) is Err implies type_audit(
        TypeSyntax::Path { last_segment: Some(seg) },
    ) is Err by {
        lemma_types_audit_err(args, i);
    }
}

/// Every element of a tuple is audited: the tuple passes exactly when all
/// its elements pass, and otherwise fails with the first failing element's
/// violation.
pub proof fn lemma_tuple_audits_every_element(elems: Vec<TypeSyntax>)
    ensures
        ({
            let ty = TypeSyntax::Tuple { elems };
            let s = elems@;
            &&& (forall|i: int| 0 <= i < s.len() ==> (#[trigger] type_audit(s[i])) is Ok) ==> type_audit(ty) is Ok
            &&& forall|i: int|
                0 <= i < s.len() && (#[trigger] type_audit(s[i])) is Err && (forall|j: int|
                    0 <= j < i ==> (#[trigger] type_audit(s[j])) is Ok) ==> type_audit(ty) == type_audit(s[i])
            &&& forall|i: int| 0 <= i < s.len() && (#[trigger] type_audit(s[i])) is Err ==> type_audit(ty) is Err
        }),
{
    let s = elems@;
    lemma_types_audit_first_violation(s);
    assert forall|i: int| 0 <= i < s.len() && (#[trigger] type_audit(s[i])) is Err implies type_audit(
        TypeSyntax::Tuple { elems },
    ) is Err by {
        lemma_types_audit_err(s, i);
    }
}

/// A list that holds a failing type fails.
pub proof fn lemma_types_audit_err(types: Seq<TypeSyntax>, i: int)
    requires
        0 <= i < types.len(),
        type_audit(types[i]) is Err,
    ensures
        types_audit(types) is Err,
    decreases types.len(),
{
    if type_audit(types[0]) is Ok {
        assert(i > 0);
        assert(types.drop_first()[i - 1] == types[i]);
        lemma_types_audit_err(types.drop_first(), i - 1);
    }
}

/// The verdict of the audit on a list of types: the first violation met, in
/// order.
pub open spec fn types_audit(types: Seq<TypeSyntax>) -> Result<(), ShapeViolation>
    decreases types,
{
    if types.len() == 0 {
        Ok(())
    } else {
        match type_audit(types[0]) {
            Err(e) => Err(e),
            Ok(_) => types_audit(types.drop_first()),
        }
    }
}

/// The verdict of the audit on the variants of an enum, in order.
pub open spec fn variants_audit(variants: Seq<Vec<TypeSyntax>>) -> Result<(), ShapeViolation>
    decreases variants.len(),
{
    if variants.len() == 0 {
        Ok(())
    } else {
        match types_audit(variants[0]@) {
            Err(e) => Err(e),
            Ok(_) => variants_audit(variants.drop_first()),
        }
    }
}

/// The verdict of the audit on a derive input.
pub open spec fn item_audit(item: ItemSyntax) -> Result<(), ShapeViolation> {
    match item {
        ItemSyntax::Struct { fields } => types_audit(fields@),
        ItemSyntax::Enum { variants } => variants_audit(variants@),
        ItemSyntax::Union { id } => Err(ShapeViolation::Union { at: id }),
    }
}

fn is_forbidden_type_name(name: &String) -> (forbidden: bool)
    ensures
        forbidden == is_forbidden_name(name@),
{
    let n = name.as_str();
    same_text(n, "Rc") || same_text(n, "Arc") || same_text(n, "Weak") || same_text(n, "RefCell")
        || same_text(n, "Cell") || same_text(n, "Mutex") || same_text(n, "RwLock")
        || same_text(n, "File") || same_text(n, "TcpStream") || same_text(n, "UdpSocket")
        || same_text(n, "Sender") || same_text(n, "Receiver")
}

/// Audits a type, recursively, for constructs that break the `Shape`
/// contract.
pub fn evaluar_tipo(ty: &TypeSyntax) -> (verdict: Result<(), ShapeViolation>)
    ensures
        verdict == type_audit(*ty),
    decreases ty,
{
    match ty {
        TypeSyntax::Ptr { id } => Err(ShapeViolation::RawPointer { at: *id }),
        TypeSyntax::TraitObject { id } => Err(ShapeViolation::DynamicDispatch { at: *id }),
        TypeSyntax::Reference { id, lifetime, elem } => {
            match lifetime {
                Some(l) => {
                    if !same_text(l.ident.as_str(), "static") {
                        return Err(ShapeViolation::NonStaticLifetime { at: l.id });
                    }
                },
                None => {
                    return Err(ShapeViolation::MissingLifetime { at: *id });
                },
            }
            evaluar_tipo(elem)
        },
        TypeSyntax::Path { last_segment } => {
            match last_segment {
                Some(seg) => {
                    if is_forbidden_type_name(&seg.ident) {
                        return Err(ShapeViolation::ForbiddenType { at: seg.id, name: seg.ident.clone() });
                    }
                    let args = &seg.type_args;
                    let mut i: usize = 0;
                    assert(args@.subrange(0, args@.len() as int) =~= args@);
                    assert(type_audit(*ty) == types_audit(args@));
                    while i < args.len()
                        invariant
                            i <= args@.len(),
                            types_audit(args@) == types_audit(args@.subrange(i as int, args@.len() as int)),
                            type_audit(*ty) == types_audit(args@),
                            *ty == (TypeSyntax::Path { last_segment: Some(*seg) }),
                            args == seg.type_args,
                        decreases args@.len() - i,
                    {
                        let ghost rest = args@.subrange(i as int, args@.len() as int);
                        assert(rest.drop_first() =~= args@.subrange(i + 1, args@.len() as int));
                        assert(rest[0] == args@[i as int]);
                        assert(decreases_to!(*ty => args@[i as int]));
                        match evaluar_tipo(&args[i]) {
                            Err(e) => {
                                return Err(e);
                            },
                            Ok(()) => {},
                        }
                        i = i + 1;
                    }
                    Ok(())
                },
                None => Ok(()),
            }
        },
        TypeSyntax::Array { elem } => evaluar_tipo(elem),
        TypeSyntax::Slice { elem } => evaluar_tipo(elem),
        TypeSyntax::Paren { elem } => evaluar_tipo(elem),
        TypeSyntax::Tuple { elems } => {
            let mut i: usize = 0;
            assert(elems@.subrange(0, elems@.len() as int) =~= elems@);
            while i < elems.len()
                invariant
                    i <= elems@.len(),
                    types_audit(elems@) == types_audit(elems@.subrange(i as int, elems@.len() as int)),
                    type_audit(*ty) == types_audit(elems@),
                    *ty == (TypeSyntax::Tuple { elems: *elems }),
                decreases elems@.len() - i,
            {
                let ghost rest = elems@.subrange(i as int, elems@.len() as int);
                assert(rest.drop_first() =~= elems@.subrange(i + 1, elems@.len() as int));
                assert(rest[0] == elems@[i as int]);
                assert(decreases_to!(*ty => elems@[i as int]));
                match evaluar_tipo(&elems[i]) {
                    Err(e) => {
                        return Err(e);
                    },
                    Ok(()) => {},
                }
                i = i + 1;
            }
            Ok(())
        },
        TypeSyntax::Other => Ok(()),
    }
}

/// Audits the field types of a struct or of one variant, in order.
pub fn analizar_campos(fields: &Vec<TypeSyntax>) -> (verdict: Result<(), ShapeViolation>)
    ensures
        verdict == types_audit(fields@),
{
    let mut i: usize = 0;
    assert(fields@.subrange(0, fields@.len() as int) =~= fields@);
    while i < fields.len()
        invariant
            i <= fields@.len(),
            types_audit(fields@) == types_audit(fields@.subrange(i as int, fields@.len() as int)),
        decreases fields@.len() - i,
    {
        let ghost rest = fields@.subrange(i as int, fields@.len() as int);
        assert(rest.drop_first() =~= fields@.subrange(i + 1, fields@.len() as int));
        assert(rest[0] == fields@[i as int]);
        match evaluar_tipo(&fields[i]) {
            Err(e) => {
                return Err(e);
            },
            Ok(()) => {},
        }
        i = i + 1;
    }
    Ok(())
}

/// Audits a derive input: every field of a struct, every field of every
/// variant of an enum; a union is refused.
pub fn verificar_anatomia_sintactica(item: &ItemSyntax) -> (verdict: Result<(), ShapeViolation>)
    ensures
        verdict == item_audit(*item),
{
    match item {
        ItemSyntax::Struct { fields } => analizar_campos(fields),
        ItemSyntax::Enum { variants } => {
            let mut i: usize = 0;
            assert(variants@.subrange(0, variants@.len() as int) =~= variants@);
            while i < variants.len()
                invariant
                    i <= variants@.len(),
                    item_audit(*item) == variants_audit(variants@),
                    variants_audit(variants@) == variants_audit(
                        variants@.subrange(i as int, variants@.len() as int),
                    ),
                decreases variants@.len() - i,
            {
                let ghost rest = variants@.subrange(i as int, variants@.len() as int);
                assert(rest.drop_first() =~= variants@.subrange(i + 1, variants@.len() as int));
                assert(rest[0] == variants@[i as int]);
                match analizar_campos(&variants[i]) {
                    Err(e) => {
                        return Err(e);
                    },
                    Ok(()) => {},
                }
                i = i + 1;
            }
            Ok(())
        },
        ItemSyntax::Union { id } => Err(ShapeViolation::Union { at: *id }),
    }
}

/// The message that a violation is reported with.
pub open spec fn violation_message(violation: ShapeViolation) -> Seq<char> {
    match violation {
        ShapeViolation::RawPointer { .. } => "Shape prohibe el uso de punteros crudos."@,
        ShapeViolation::DynamicDispatch { .. } => "Shape no tolera despacho dinámico (dyn Trait)."@,
        ShapeViolation::NonStaticLifetime { .. } => "Shape solo permite referencias con lifetime 'static"@,
        ShapeViolation::MissingLifetime { .. } => "Referencias requieren un lifetime 'static explícito."@,
        ShapeViolation::ForbiddenType { name, .. } => "El tipo ["@ + name@ + "] rompe los invariantes de Shape."@,
        ShapeViolation::Union { .. } => "Shape prohibe Unions (Layout no determinista)"@,
    }
}

impl ShapeViolation {
    /// The id of the syntax node that the violation points at.
    pub fn node(&self) -> (at: usize)
        ensures
            at == match *self {
                ShapeViolation::RawPointer { at } => at,
                ShapeViolation::DynamicDispatch { at } => at,
                ShapeViolation::NonStaticLifetime { at } => at,
                ShapeViolation::MissingLifetime { at } => at,
                ShapeViolation::ForbiddenType { at, .. } => at,
                ShapeViolation::Union { at } => at,
            },
    {
        match self {
            ShapeViolation::RawPointer { at } => *at,
            ShapeViolation::DynamicDispatch { at } => *at,
            ShapeViolation::NonStaticLifetime { at } => *at,
            ShapeViolation::MissingLifetime { at } => *at,
            ShapeViolation::ForbiddenType { at, .. } => *at,
            ShapeViolation::Union { at } => *at,
        }
    }

    /// The message the violation is reported with.
    pub fn message(&self) -> (text: String)
        ensures
            text@ == violation_message(*self),
    {
        match self {
            ShapeViolation::RawPointer { .. } => String::from_str("Shape prohibe el uso de punteros crudos."),
            ShapeViolation::DynamicDispatch { .. } => String::from_str(
                "Shape no tolera despacho dinámico (dyn Trait).",
            ),
            ShapeViolation::NonStaticLifetime { .. } => String::from_str(
                "Shape solo permite referencias con lifetime 'static",
            ),
            ShapeViolation::MissingLifetime { .. } => String::from_str(
                "Referencias requieren un lifetime 'static explícito.",
            ),
            ShapeViolation::ForbiddenType { name, .. } => {
                let mut text = String::from_str("El tipo [");
                text.append(name.as_str());
                text.append("] rompe los invariantes de Shape.");
                text
            },
            ShapeViolation::Union { .. } => String::from_str(
                "Shape prohibe Unions (Layout no determinista)",
            ),
        }
    }
}

} // verus!

//! What the derive macros of this library read from the generics of the
//! type they are applied to.
//!
//! A type that is generic over a driver marks the parameter with an
//! attribute `#[ragu(driver)]`; the macros then need the name of that
//! parameter and the lifetime of its `Driver` bound. The items here hold
//! what the macros read of the syntax tree as plain values, so that the
//! decision is made on those.

use vstd::prelude::*;

verus! {

/// A token of the arguments of an attribute.
#[derive(Clone, Debug)]
pub enum Token {
    /// An identifier.
    Ident(String),
    /// Anything else.
    Other,
}

/// What follows the path of an attribute.
#[derive(Clone, Debug)]
pub enum Meta {
    /// Nothing: `#[ragu]`.
    Path,
    /// A list of tokens in brackets: `#[ragu(driver)]`.
    List(Vec<Token>),
    /// A value: `#[ragu = "driver"]`.
    NameValue,
}

/// An attribute.
#[derive(Clone, Debug)]
pub struct Attribute {
    /// The segments of the path.
    pub path: Vec<String>,
    /// What follows the path.
    pub meta: Meta,
}

/// Whether one of the tokens is the identifier `needle`.
pub open spec fn has_ident(tokens: Seq<Token>, needle: Seq<char>) -> bool {
    exists|i: int|
        0 <= i < tokens.len() && (#[trigger] tokens[i] matches Token::Ident(id) && id@ == needle)
}

/// Whether the attribute is `#[ragu(..)]` with the identifier `needle`
/// among its arguments.
pub open spec fn attr_is_spec(attr: &Attribute, needle: Seq<char>) -> bool {
    &&& attr.path@.len() == 1
    &&& attr.path@[0]@ == "ragu"@
    &&& attr.meta matches Meta::List(tokens) && has_ident(tokens@, needle)
}

/// Whether the attribute is `#[ragu(..)]` with the identifier `needle`
/// among its arguments.
pub fn attr_is(attr: &Attribute, needle: &str) -> (r: bool)
    ensures
        r == attr_is_spec(attr, needle@),
{
    if attr.path.len() != 1 {
        return false;
    }
    let ragu = "ragu".to_owned();
    if attr.path[0] != ragu {
        return false;
    }
    let wanted = needle.to_owned();
    match &attr.meta {
        Meta::List(tokens) => {
            let mut i: usize = 0;
            while i < tokens.len()
                invariant
                    i <= tokens@.len(),
                    forall|k: int|
                        0 <= k < i ==> !(#[trigger] tokens@[k] matches Token::Ident(id) && id@
                            == needle@),
                    wanted@ == needle@,
                    attr.path@.len() == 1,
                    attr.path@[0]@ == "ragu"@,
                    attr.meta matches Meta::List(t) && t@ == tokens@,
                decreases tokens@.len() - i,
            {
                match &tokens[i] {
                    Token::Ident(ident) => {
                        if *ident == wanted {
                            assert(tokens@[i as int] matches Token::Ident(id) && id@ == needle@);
                            return true;
                        }
                    },
                    Token::Other => {},
                }
                i += 1;
            }
            false
        },
        _ => false,
    }
}

/// An argument in angle brackets.
#[derive(Clone, Debug)]
pub enum GenericArgument {
    /// A lifetime, with its apostrophe.
    Lifetime(String),
    /// Anything else.
    Other,
}

/// The arguments of a segment of a path.
#[derive(Clone, Debug)]
pub enum PathArguments {
    /// No arguments.
    Absent,
    /// Arguments in angle brackets.
    AngleBracketed(Vec<GenericArgument>),
    /// Arguments in round brackets.
    Parenthesized,
}

/// A bound of a type parameter.
#[derive(Clone, Debug)]
pub enum TypeParamBound {
    /// A trait, by the last segment of its path.
    Trait {
        /// The name of the last segment.
        ident: String,
        /// The arguments of the last segment.
        arguments: PathArguments,
    },
    /// Anything else.
    Other,
}

/// A type parameter.
#[derive(Clone, Debug)]
pub struct TypeParam {
    /// The attributes of the parameter.
    pub attrs: Vec<Attribute>,
    /// The name of the parameter.
    pub ident: String,
    /// The bounds of the parameter.
    pub bounds: Vec<TypeParamBound>,
}

/// A generic parameter.
#[derive(Clone, Debug)]
pub enum GenericParam {
    /// A type parameter.
    Type(TypeParam),
    /// A lifetime or a constant.
    Other,
}

/// The generic parameters of a type.
#[derive(Clone, Debug)]
pub struct Generics {
    /// The parameters, in order.
    pub params: Vec<GenericParam>,
}

/// The parameter that stands for the driver, and the lifetime of the
/// driver.
#[derive(Clone, Debug)]
pub struct GenericDriver {
    /// The name of the parameter.
    pub ident: String,
    /// The lifetime of the driver.
    pub lifetime: String,
}

/// Why the driver could not be read off a parameter.
#[derive(Clone, Copy, Debug, PartialEq, Eq, Structural)]
pub enum ExtractError {
    /// The `Driver` bound has no lifetime, or more than one.
    ExpectedSingleLifetime,
    /// The `Driver` bound has no arguments in angle brackets.
    ExpectedLifetime,
    /// The parameter has no `Driver` bound.
    ExpectedDriverBound,
}

impl ExtractError {
    /// The message of the error.
    pub fn message(&self) -> (r: String)
        ensures
            r@ == match self {
                ExtractError::ExpectedSingleLifetime => "expected a single lifetime bound"@,
                ExtractError::ExpectedLifetime => "expected a lifetime bound"@,
                ExtractError::ExpectedDriverBound => "expected a Driver<'dr> bound"@,
            },
    {
        match self {
            ExtractError::ExpectedSingleLifetime => "expected a single lifetime bound".to_owned(),
            ExtractError::ExpectedLifetime => "expected a lifetime bound".to_owned(),
            ExtractError::ExpectedDriverBound => "expected a Driver<'dr> bound".to_owned(),
        }
    }
}

/// The lifetimes among the first `upto` arguments, in order.
pub open spec fn lifetimes_upto(args: Seq<GenericArgument>, upto: int) -> Seq<Seq<char>>
    decreases upto,
{
    if upto <= 0 {
        Seq::empty()
    } else {
        match args[upto - 1] {
            GenericArgument::Lifetime(lt) => lifetimes_upto(args, upto - 1).push(lt@),
            GenericArgument::Other => lifetimes_upto(args, upto - 1),
        }
    }
}

/// What the bounds from `from` on say of the driver: the first bound on a
/// trait named `Driver` decides.
pub open spec fn driver_of_bounds(bounds: Seq<TypeParamBound>, from: int) -> Result<
    Seq<char>,
    ExtractError,
>
    decreases bounds.len() - from,
{
    if from < 0 || from >= bounds.len() {
        Err(ExtractError::ExpectedDriverBound)
    } else {
        match bounds[from] {
            TypeParamBound::Trait { ident, arguments } => if ident@ == "Driver"@ {
                match arguments {
                    PathArguments::AngleBracketed(args) => {
                        let lifetimes = lifetimes_upto(args@, args@.len() as int);
                        if lifetimes.len() == 1 {
                            Ok(lifetimes[0])
                        } else {
                            Err(ExtractError::ExpectedSingleLifetime)
                        }
                    },
                    _ => Err(ExtractError::ExpectedLifetime),
                }
            } else {
                driver_of_bounds(bounds, from + 1)
            },
            TypeParamBound::Other => driver_of_bounds(bounds, from + 1),
        }
    }
}

/// Whether one of the first `upto` attributes marks the driver.
pub open spec fn marked_upto(attrs: Seq<Attribute>, upto: int) -> bool {
    exists|i: int| 0 <= i < upto && attr_is_spec(#[trigger] &attrs[i], "driver"@)
}

/// What a type parameter says of the driver: its own name, and the
/// lifetime that its bounds give.
pub open spec fn driver_of_param(param: TypeParam) -> Result<(Seq<char>, Seq<char>), ExtractError> {
    match driver_of_bounds(param.bounds@, 0) {
        Ok(lifetime) => Ok((param.ident@, lifetime)),
        Err(e) => Err(e),
    }
}

/// What the parameters from `from` on say of the driver: the first type
/// parameter that is marked decides, and where none is marked, the driver
/// is `D` with the lifetime `'dr`.
pub open spec fn driver_of_params(params: Seq<GenericParam>, from: int) -> Result<
    (Seq<char>, Seq<char>),
    ExtractError,
>
    decreases params.len() - from,
{
    if from < 0 || from >= params.len() {
        Ok(("D"@, "'dr"@))
    } else {
        match params[from] {
            GenericParam::Type(ty) => if marked_upto(ty.attrs@, ty.attrs@.len() as int) {
                driver_of_param(ty)
            } else {
                driver_of_params(params, from + 1)
            },
            GenericParam::Other => driver_of_params(params, from + 1),
        }
    }
}

/// The name and the lifetime of a driver that was read off, or the error.
pub open spec fn driver_view(r: Result<GenericDriver, ExtractError>) -> Result<
    (Seq<char>, Seq<char>),
    ExtractError,
> {
    match r {
        Ok(d) => Ok((d.ident@, d.lifetime@)),
        Err(e) => Err(e),
    }
}

impl Default for GenericDriver {
    /// The driver that is assumed where no parameter is marked: the
    /// parameter `D` with the lifetime `'dr`.
    fn default() -> (r: GenericDriver)
        ensures
            r.ident@ == "D"@,
            r.lifetime@ == "'dr"@,
    {
        GenericDriver { ident: "D".to_owned(), lifetime: "'dr".to_owned() }
    }
}

impl GenericDriver {
    /// The driver of the generics: read off the first type parameter that
    /// is marked with `#[ragu(driver)]`; where none is marked, the default.
    pub fn extract(generics: &Generics) -> (r: Result<GenericDriver, ExtractError>)
        ensures
            driver_view(r) == driver_of_params(generics.params@, 0),
    {
        let mut i: usize = 0;
        while i < generics.params.len()
            invariant
                i <= generics.params@.len(),
                driver_of_params(generics.params@, 0) == driver_of_params(
                    generics.params@,
                    i as int,
                ),
            decreases generics.params@.len() - i,
        {
            match &generics.params[i] {
                GenericParam::Type(ty) => {
                    if is_driver(ty) {
                        return GenericDriver::extract_from_param(ty);
                    }
                },
                GenericParam::Other => {},
            }
            i += 1;
        }
        Ok(GenericDriver::default())
    }

    /// The driver of a type parameter: its name, and the one lifetime of
    /// its first bound on a trait named `Driver`.
    pub fn extract_from_param(param: &TypeParam) -> (r: Result<GenericDriver, ExtractError>)
        ensures
            driver_view(r) == driver_of_param(*param),
    {
        let driver = "Driver".to_owned();
        let mut i: usize = 0;
        while i < param.bounds.len()
            invariant
                i <= param.bounds@.len(),
                driver@ == "Driver"@,
                driver_of_bounds(param.bounds@, 0) == driver_of_bounds(param.bounds@, i as int),
            decreases param.bounds@.len() - i,
        {
            match &param.bounds[i] {
                TypeParamBound::Trait { ident, arguments } => {
                    if *ident == driver {
                        match arguments {
                            PathArguments::AngleBracketed(args) => {
                                let lifetimes = lifetimes(args);
                                if lifetimes.len() == 1 {
                                    return Ok(
                                        GenericDriver {
                                            ident: param.ident.clone(),
                                            lifetime: lifetimes[0].clone(),
                                        },
                                    );
                                } else {
                                    return Err(ExtractError::ExpectedSingleLifetime);
                                }
                            },
                            _ => {
                                return Err(ExtractError::ExpectedLifetime);
                            },
                        }
                    }
                },
                TypeParamBound::Other => {},
            }
            i += 1;
        }
        Err(ExtractError::ExpectedDriverBound)
    }
}

/// The views of a list of strings.
pub open spec fn string_views(strings: Seq<String>) -> Seq<Seq<char>> {
    Seq::new(strings.len(), |i: int| strings[i]@)
}

/// The lifetimes among the arguments, in order.
fn lifetimes(args: &Vec<GenericArgument>) -> (r: Vec<String>)
    ensures
        string_views(r@) == lifetimes_upto(args@, args@.len() as int),
{
    let mut r: Vec<String> = Vec::new();
    let mut i: usize = 0;
    assert(string_views(r@) =~= lifetimes_upto(args@, 0));
    while i < args.len()
        invariant
            i <= args@.len(),
            string_views(r@) == lifetimes_upto(args@, i as int),
        decreases args@.len() - i,
    {
        match &args[i] {
            GenericArgument::Lifetime(lt) => {
                let ghost before = string_views(r@);
                r.push(lt.clone());
                assert(string_views(r@) =~= before.push(lt@));
            },
            GenericArgument::Other => {},
        }
        i += 1;
    }
    r
}

/// Whether the type parameter is marked as the driver.
fn is_driver(param: &TypeParam) -> (r: bool)
    ensures
        r == marked_upto(param.attrs@, param.attrs@.len() as int),
{
    let mut i: usize = 0;
    while i < param.attrs.len()
        invariant
            i <= param.attrs@.len(),
            !marked_upto(param.attrs@, i as int),
        decreases param.attrs@.len() - i,
    {
        if attr_is(&param.attrs[i], "driver") {
            return true;
        }
        i += 1;
    }
    false
}

} // verus!

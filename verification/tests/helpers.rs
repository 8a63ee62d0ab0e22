use ragu_pcd::helpers::attr_is;
use ragu_pcd::helpers::Attribute;
use ragu_pcd::helpers::ExtractError;
use ragu_pcd::helpers::GenericArgument;
use ragu_pcd::helpers::GenericDriver;
use ragu_pcd::helpers::GenericParam;
use ragu_pcd::helpers::Generics;
use ragu_pcd::helpers::Meta;
use ragu_pcd::helpers::PathArguments;
use ragu_pcd::helpers::Token;
use ragu_pcd::helpers::TypeParam;
use ragu_pcd::helpers::TypeParamBound;

/// `#[path(ident)]`
fn list(path: &str, ident: &str) -> Attribute {
    Attribute {
        path: vec![path.to_string()],
        meta: Meta::List(vec![Token::Ident(ident.to_string())]),
    }
}

fn lifetime(name: &str) -> GenericArgument {
    GenericArgument::Lifetime(name.to_string())
}

/// `<#[ragu(driver)] D: bound>`, the bound a trait with the given last
/// segment and arguments.
fn marked(bound: TypeParamBound) -> Generics {
    Generics {
        params: vec![GenericParam::Type(TypeParam {
            attrs: vec![list("ragu", "driver")],
            ident: "D".to_string(),
            bounds: vec![bound],
        })],
    }
}

fn driver(arguments: PathArguments) -> TypeParamBound {
    TypeParamBound::Trait { ident: "Driver".to_string(), arguments }
}

#[test]
fn test_attr_is() {
    let attr = list("ragu", "driver");
    assert!(attr_is(&attr, "driver"));
    assert!(!attr_is(&attr, "not_driver"));

    let attr = list("ragu", "not_driver");
    assert!(!attr_is(&attr, "driver"));
    assert!(attr_is(&attr, "not_driver"));

    let attr = Attribute { path: vec!["ragu".to_string()], meta: Meta::Path };
    assert!(!attr_is(&attr, "driver"));

    let attr = list("not_ragu", "driver");
    assert!(!attr_is(&attr, "driver"));
}

#[test]
fn test_extract_generic_driver() {
    // <#[ragu(driver)] D: ragu_core::Driver<'dr>>
    let generics = marked(driver(PathArguments::AngleBracketed(vec![lifetime("'dr")])));
    let driver_found = GenericDriver::extract(&generics).unwrap();
    assert_eq!(driver_found.ident.to_string(), "D");
    assert_eq!(driver_found.lifetime.to_string(), "'dr");

    // <#[ragu(driver)] D: Driver<'dr>>
    let generics = marked(driver(PathArguments::AngleBracketed(vec![lifetime("'dr")])));
    let driver_found = GenericDriver::extract(&generics).unwrap();
    assert_eq!(driver_found.ident.to_string(), "D");
    assert_eq!(driver_found.lifetime.to_string(), "'dr");

    // Shouldn't cause an error in the macro to have a spurious driver type argument
    // <#[ragu(driver)] D: Driver<'dr, T>>
    let generics = marked(driver(PathArguments::AngleBracketed(vec![
        lifetime("'dr"),
        GenericArgument::Other,
    ])));
    let driver_found = GenericDriver::extract(&generics).unwrap();
    assert_eq!(driver_found.ident.to_string(), "D");
    assert_eq!(driver_found.lifetime.to_string(), "'dr");

    // <#[ragu(driver)] D: Driver<'dr, 'another_dr>>
    let generics = marked(driver(PathArguments::AngleBracketed(vec![
        lifetime("'dr"),
        lifetime("'another_dr"),
    ])));
    assert!(GenericDriver::extract(&generics).is_err());

    // <#[ragu(driver)] D: Driver>
    let generics = marked(driver(PathArguments::Absent));
    assert!(GenericDriver::extract(&generics).is_err());

    // <#[ragu(driver)] D: 'a>
    let generics = marked(TypeParamBound::Other);
    assert!(GenericDriver::extract(&generics).is_err());

    // <D: Driver<'dr>>
    let generics = Generics {
        params: vec![GenericParam::Type(TypeParam {
            attrs: vec![],
            ident: "D".to_string(),
            bounds: vec![driver(PathArguments::AngleBracketed(vec![lifetime("'dr")]))],
        })],
    };
    let driver_found = GenericDriver::extract(&generics).unwrap();
    assert_eq!(driver_found.ident.to_string(), "D");
    assert_eq!(driver_found.lifetime.to_string(), "'dr");
}

#[test]
fn each_failure_has_its_own_error() {
    let two = marked(driver(PathArguments::AngleBracketed(vec![lifetime("'a"), lifetime("'b")])));
    assert_eq!(GenericDriver::extract(&two).unwrap_err(), ExtractError::ExpectedSingleLifetime);
    let none = marked(driver(PathArguments::AngleBracketed(vec![GenericArgument::Other])));
    assert_eq!(GenericDriver::extract(&none).unwrap_err(), ExtractError::ExpectedSingleLifetime);
    let bare = marked(driver(PathArguments::Absent));
    assert_eq!(GenericDriver::extract(&bare).unwrap_err(), ExtractError::ExpectedLifetime);
    let round = marked(driver(PathArguments::Parenthesized));
    assert_eq!(GenericDriver::extract(&round).unwrap_err(), ExtractError::ExpectedLifetime);
    let other = marked(TypeParamBound::Trait {
        ident: "Clone".to_string(),
        arguments: PathArguments::Absent,
    });
    assert_eq!(GenericDriver::extract(&other).unwrap_err(), ExtractError::ExpectedDriverBound);
    assert_eq!(ExtractError::ExpectedSingleLifetime.message(), "expected a single lifetime bound");
    assert_eq!(ExtractError::ExpectedLifetime.message(), "expected a lifetime bound");
    assert_eq!(ExtractError::ExpectedDriverBound.message(), "expected a Driver<'dr> bound");
}

#[test]
fn the_first_marked_parameter_decides() {
    let generics = Generics {
        params: vec![
            GenericParam::Other,
            GenericParam::Type(TypeParam {
                attrs: vec![list("ragu", "gadget")],
                ident: "T".to_string(),
                bounds: vec![driver(PathArguments::AngleBracketed(vec![lifetime("'t")]))],
            }),
            GenericParam::Type(TypeParam {
                attrs: vec![list("other", "driver"), list("ragu", "driver")],
                ident: "Dr".to_string(),
                bounds: vec![
                    TypeParamBound::Other,
                    TypeParamBound::Trait {
                        ident: "Clone".to_string(),
                        arguments: PathArguments::Absent,
                    },
                    driver(
                        PathArguments::AngleBracketed(vec![GenericArgument::Other, lifetime("'x")])
                    ),
                    driver(PathArguments::Absent),
                ],
            }),
            GenericParam::Type(TypeParam {
                attrs: vec![list("ragu", "driver")],
                ident: "Late".to_string(),
                bounds: vec![],
            }),
        ],
    };
    let found = GenericDriver::extract(&generics).unwrap();
    assert_eq!(found.ident, "Dr");
    assert_eq!(found.lifetime, "'x");
    let default = GenericDriver::default();
    assert_eq!(default.ident, "D");
    assert_eq!(default.lifetime, "'dr");
    let unmarked = Generics { params: vec![GenericParam::Other] };
    let found = GenericDriver::extract(&unmarked).unwrap();
    assert_eq!(found.ident, "D");
    assert_eq!(found.lifetime, "'dr");
}

use fem_ui::catalog::{Catalog, CatalogNumber, LibraryMaterial, LibraryUnits, check_library_size};

fn number(x: CatalogNumber) -> f64 {
    match x {
        CatalogNumber::FloatBits(b) => f64::from_bits(b),
        CatalogNumber::Integer(n) => n as f64,
    }
}

/// Whether a record's constants survive conversion to single precision in
/// both unit systems (what the application checks before `from_rows`).
fn fits_single_precision(entry: &LibraryMaterial) -> bool {
    [(1.0, 1.0), (1e-6, 1e-12)].iter().all(|(e_scale, rho_scale)| {
        let young = (number(entry.young_pa) * e_scale) as f32;
        let poisson = number(entry.poisson) as f32;
        let density = entry.density_kg_m3.map(|d| (number(d) * rho_scale) as f32);
        young.is_finite()
            && young > 0.0
            && poisson > -1.0
            && poisson < 0.5
            && density.is_none_or(|v| v.is_finite() && v > 0.0)
    })
}

fn parse(text: &str) -> Result<Catalog, String> {
    let rows = Catalog::parse_rows(text)?;
    let precise: Vec<bool> = rows.iter().map(fits_single_precision).collect();
    Catalog::from_rows(rows, &precise)
}

const CUSTOM: &str = "schema_version = 1\n[[materials]]\nname = 'MY_ALLOY'\nlabel = '試験材'\nyoung_pa = 70e9\npoisson = 0.3\n";

#[test]
fn custom_comments_unicode_bom_and_optional_density_are_supported() {
    let catalog = parse(&format!("\u{feff}# user library\n{CUSTOM}")).unwrap();
    assert_eq!(catalog.materials[0].label, "試験材");
    assert_eq!(catalog.materials[0].density_kg_m3, None);
    let text = CUSTOM.replace("label = '試験材'\n", "").replace("70e9", "70000000000");
    assert_eq!(parse(&text).unwrap().materials[0].label, "MY_ALLOY");
}

#[test]
fn invalid_or_misspelled_constants_fail_closed() {
    for bad in ["nan", "inf", "-1", "0", "1e300", "1e-300", "'70e9'"] {
        assert!(parse(&CUSTOM.replace("70e9", bad)).is_err(), "{bad}");
    }
    for bad in ["-1", "0.5", "nan", "0.49999999999999999"] {
        assert!(parse(&CUSTOM.replace("0.3", bad)).is_err(), "{bad}");
    }
    for text in [
        CUSTOM.replace("young_pa", "young_mpa"),
        CUSTOM.replace("schema_version = 1", "schema_version = 2"),
        format!("{CUSTOM}density_kg_m3 = -1\n"),
        format!("{CUSTOM}{}", CUSTOM.split_once('\n').unwrap().1),
        "schema_version = 1\nmaterials = []".into(),
    ] {
        assert!(parse(&text).is_err());
    }
}

#[test]
fn catalogue_errors_name_the_problem() {
    assert_eq!(
        parse(&CUSTOM.replace("young_pa", "young_mpa")).unwrap_err(),
        "materials[1]: Unknown field: young_mpa"
    );
    assert_eq!(
        parse(&CUSTOM.replace("schema_version = 1", "schema_version = 2")).unwrap_err(),
        "Expected schema_version = 1"
    );
    assert_eq!(parse("schema_version = 1\nmaterials = []").unwrap_err(), "Expected [[materials]] tables");
    assert_eq!(parse("schema_version = 1\nextra = 3").unwrap_err(), "Unknown field: extra");
    assert_eq!(
        parse(&CUSTOM.replace("70e9", "'70e9'")).unwrap_err(),
        "materials[1]: young_pa must be a number"
    );
    assert_eq!(
        parse(&CUSTOM.replace("name = 'MY_ALLOY'\n", "")).unwrap_err(),
        "materials[1]: Missing name"
    );
    assert_eq!(
        parse(&format!("{CUSTOM}{}", CUSTOM.split_once('\n').unwrap().1)).unwrap_err(),
        "Invalid/duplicate material name: MY_ALLOY (use letters, digits, underscore)"
    );
    assert_eq!(
        parse(&CUSTOM.replace("0.3", "0.5")).unwrap_err(),
        "MY_ALLOY: require E > 0, -1 < nu < 0.5, density > 0 (or omit density)"
    );
    assert_eq!(parse(&CUSTOM.replace("70e9", "1e300")).unwrap_err(), "MY_ALLOY: constants exceed supported precision");
    assert!(parse("[broken").is_err());
    assert_eq!(
        Catalog::from_rows(Vec::new(), &Vec::new()).unwrap_err(),
        "Expected schema_version = 1 and at least one [[materials]]"
    );
}

#[test]
fn numbers_keep_their_toml_form_and_auxetic_ratios_are_accepted() {
    let text = CUSTOM.replace("0.3", "-0.5").replace("70e9", "70000000000");
    let catalog = parse(&format!("{text}density_kg_m3 = 2700.0\n")).unwrap();
    let entry = &catalog.materials[0];
    assert_eq!(entry.young_pa, CatalogNumber::Integer(70_000_000_000));
    assert_eq!(entry.poisson, CatalogNumber::FloatBits((-0.5f64).to_bits()));
    assert_eq!(entry.density_kg_m3, Some(CatalogNumber::FloatBits(2700.0f64.to_bits())));
    assert_eq!(catalog.schema_version, 1);
}

#[test]
fn unit_labels_and_size_limit() {
    assert_eq!(LibraryUnits::Metres.label(), "m / kg / N / s");
    assert_eq!(LibraryUnits::Millimetres.label(), "mm / t / N / s");
    assert!(check_library_size(1_048_576).is_ok());
    assert_eq!(check_library_size(1_048_577).unwrap_err(), "Library exceeds the 1 MiB limit");
}

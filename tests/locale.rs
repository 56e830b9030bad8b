use text_analysis::locale::subtag::{subtags, Subtag};

fn all(locale: &str) -> Vec<Subtag<'_>> {
    let mut it = subtags(locale);
    let mut out = Vec::new();
    while let Some(t) = it.next() {
        out.push(t);
    }
    out
}

#[test]
fn language_script_region() {
    assert_eq!(
        all("en-Latn-US"),
        vec![Subtag::Language("en"), Subtag::Script("Latn"), Subtag::Region("US")]
    );
    assert_eq!(all("es-419"), vec![Subtag::Language("es"), Subtag::Region("419")]);
    assert_eq!(all("zh-Hant"), vec![Subtag::Language("zh"), Subtag::Script("Hant")]);
}

#[test]
fn variants() {
    assert_eq!(
        all("de-CH-1901"),
        vec![Subtag::Language("de"), Subtag::Region("CH"), Subtag::Variant("1901")]
    );
    assert_eq!(
        all("sl-rozaj-biske"),
        vec![Subtag::Language("sl"), Subtag::Variant("rozaj"), Subtag::Variant("biske")]
    );
}

#[test]
fn extensions_and_private_use() {
    assert_eq!(
        all("en-a-bbb-x-a-ccc"),
        vec![Subtag::Language("en"), Subtag::Extension("a-bbb"), Subtag::Private("x-a-ccc")]
    );
    assert_eq!(all("en-x-foo"), vec![Subtag::Language("en"), Subtag::Private("x-foo")]);
}

#[test]
fn bad_language_stops() {
    assert_eq!(all("e"), vec![]);
    assert_eq!(all("english"), vec![]);
    assert_eq!(all(""), vec![]);
}

#[test]
fn remainder_follows_the_parsed_subtags() {
    let mut it = subtags("en-US-x-y");
    assert_eq!(it.remainder(), "en-US-x-y");
    assert_eq!(it.next(), Some(Subtag::Language("en")));
    assert_eq!(it.remainder(), "US-x-y");
    assert_eq!(it.next(), Some(Subtag::Region("US")));
    assert_eq!(it.remainder(), "x-y");
    assert_eq!(it.next(), Some(Subtag::Private("x-y")));
    assert_eq!(it.remainder(), "");
    assert_eq!(it.next(), None);
}

#[test]
fn script_then_region_and_region_then_variant() {
    assert_eq!(
        all("zh-Hant-TW"),
        vec![Subtag::Language("zh"), Subtag::Script("Hant"), Subtag::Region("TW")]
    );
    assert_eq!(
        all("de-CH-1996"),
        vec![Subtag::Language("de"), Subtag::Region("CH"), Subtag::Variant("1996")]
    );
    assert_eq!(
        all("en-a-bbb-x-ccc"),
        vec![Subtag::Language("en"), Subtag::Extension("a-bbb"), Subtag::Private("x-ccc")]
    );
}

#[test]
fn remainder_after_language() {
    let mut it = subtags("en-US");
    assert_eq!(it.next(), Some(Subtag::Language("en")));
    assert_eq!(it.remainder(), "US");
    assert_eq!(it.next(), Some(Subtag::Region("US")));
    assert_eq!(it.remainder(), "");
    assert_eq!(it.next(), None);
}

#[test]
fn non_ascii_part_fits_no_subtag() {
    assert_eq!(all("ab-\u{e9}"), vec![Subtag::Language("ab")]);
    assert_eq!(all("\u{e9}\u{e9}"), vec![]);
}

#[test]
fn extension_ended_by_another_singleton() {
    assert_eq!(
        all("en-a-bb-b-cc"),
        vec![Subtag::Language("en"), Subtag::Extension("a-bb"), Subtag::Extension("b-cc")]
    );
}

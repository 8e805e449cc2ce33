use rugby::bfmt::{
    pad, Align, Error, Layout, Size, Unit, B, EB, EiB, GB, GiB, KB, KiB, MB, MiB, PB, PiB, TB,
    TiB,
};

/// Renders a size as its display form does: the value in the nearest unit,
/// with an optional precision, padded as a number.
fn show(size: Size, si: bool, precision: Option<usize>, width: Option<usize>, align: Option<Align>) -> String {
    let unit = size.unit(si);
    let base = (size.to_usize() as f64) / (unit.value() as f64);
    let base = match precision {
        Some(p) => format!("{base:.p$}"),
        None => format!("{base}"),
    };
    let text = format!("{base} {}", unit.to_string());
    let layout = Layout { width, align, fill: ' ', plus: false, zero: false };
    pad(&text, &layout)
}

fn plain(size: Size) -> String {
    show(size, false, None, None, None)
}

fn alt(size: Size) -> String {
    show(size, true, None, None, None)
}

#[test]
fn derived_unit_works() {
    assert_eq!("1 B", plain(Size::Byte(B)));
    assert_eq!("1 KB", alt(Size::Byte(KB)));
    assert_eq!("1 KiB", plain(Size::Byte(KiB)));
    assert_eq!("1 MB", alt(Size::Byte(MB)));
    assert_eq!("1 MiB", plain(Size::Byte(MiB)));
    assert_eq!("1 GB", alt(Size::Byte(GB)));
    assert_eq!("1 GiB", plain(Size::Byte(GiB)));
    assert_eq!("1 TB", alt(Size::Byte(TB)));
    assert_eq!("1 TiB", plain(Size::Byte(TiB)));
    assert_eq!("1 PB", alt(Size::Byte(PB)));
    assert_eq!("1 PiB", plain(Size::Byte(PiB)));
    assert_eq!("1 EB", alt(Size::Byte(EB)));
    assert_eq!("1 EiB", plain(Size::Byte(EiB)));
}

#[test]
fn literal_unit_works() {
    assert_eq!("1 B", plain(Size::Byte(1u64)));
    assert_eq!("1 KB", alt(Size::Kilo(1u64)));
    assert_eq!("1 KiB", plain(Size::Kibi(1u64)));
    assert_eq!("1 MB", alt(Size::Mega(1u64)));
    assert_eq!("1 MiB", plain(Size::Mebi(1u64)));
    assert_eq!("1 GB", alt(Size::Giga(1u64)));
    assert_eq!("1 GiB", plain(Size::Gibi(1u64)));
    assert_eq!("1 TB", alt(Size::Tera(1u64)));
    assert_eq!("1 TiB", plain(Size::Tebi(1u64)));
    assert_eq!("1 PB", alt(Size::Peta(1u64)));
    assert_eq!("1 PiB", plain(Size::Pebi(1u64)));
    assert_eq!("1 EB", alt(Size::Exa(1u64)));
    assert_eq!("1 EiB", plain(Size::Exbi(1u64)));
}

#[test]
fn format_value_works() {
    let w = Some(10);
    let (l, c, r) = (Some(Align::Left), Some(Align::Center), Some(Align::Right));
    // unaligned
    assert_eq!("     999 B", show(Size::Byte(999u64), true, None, w, None));
    assert_eq!("      1 KB", show(Size::Byte(1000u64), true, None, w, None));
    assert_eq!("  1.001 KB", show(Size::Byte(1001u64), true, Some(3), w, None));
    assert_eq!("    1023 B", show(Size::Byte(1023u64), false, None, w, None));
    assert_eq!("     1 KiB", show(Size::Byte(1024u64), false, None, w, None));
    assert_eq!(" 1.001 KiB", show(Size::Byte(1025u64), false, Some(3), w, None));
    // aligned left
    assert_eq!("999 B     ", show(Size::Byte(999u64), true, None, w, l));
    assert_eq!("1 KB      ", show(Size::Byte(1000u64), true, None, w, l));
    assert_eq!("1.001 KB  ", show(Size::Byte(1001u64), true, Some(3), w, l));
    assert_eq!("1023 B    ", show(Size::Byte(1023u64), false, None, w, l));
    assert_eq!("1 KiB     ", show(Size::Byte(1024u64), false, None, w, l));
    assert_eq!("1.001 KiB ", show(Size::Byte(1025u64), false, Some(3), w, l));
    // aligned center
    assert_eq!("  999 B   ", show(Size::Byte(999u64), true, None, w, c));
    assert_eq!("   1 KB   ", show(Size::Byte(1000u64), true, None, w, c));
    assert_eq!(" 1.001 KB ", show(Size::Byte(1001u64), true, Some(3), w, c));
    assert_eq!("  1023 B  ", show(Size::Byte(1023u64), false, None, w, c));
    assert_eq!("  1 KiB   ", show(Size::Byte(1024u64), false, None, w, c));
    assert_eq!("1.001 KiB ", show(Size::Byte(1025u64), false, Some(3), w, c));
    // aligned right
    assert_eq!("     999 B", show(Size::Byte(999u64), true, None, w, r));
    assert_eq!("      1 KB", show(Size::Byte(1000u64), true, None, w, r));
    assert_eq!("  1.001 KB", show(Size::Byte(1001u64), true, Some(3), w, r));
    assert_eq!("    1023 B", show(Size::Byte(1023u64), false, None, w, r));
    assert_eq!("     1 KiB", show(Size::Byte(1024u64), false, None, w, r));
    assert_eq!(" 1.001 KiB", show(Size::Byte(1025u64), false, Some(3), w, r));
}

#[test]
fn unit_selection_edges() {
    assert_eq!(Size::Byte(0u64).unit(true), Unit::Byte);
    assert_eq!(Size::Byte(0u64).unit(false), Unit::Byte);
    assert_eq!(Size::Byte(999u64).unit(true), Unit::Byte);
    assert_eq!(Size::Byte(1023u64).unit(false), Unit::Byte);
    assert_eq!(Size::Byte(u64::MAX).unit(true), Unit::Exa);
    assert_eq!(Size::Byte(u64::MAX).unit(false), Unit::Exbi);
}

#[test]
fn unit_names_round_trip() {
    assert_eq!(Unit::from_str("KiB"), Ok(Unit::Kibi));
    assert_eq!(Unit::from_str("eb"), Ok(Unit::Exa));
    assert_eq!(Unit::from_str("QB"), Err(Error::Unit));
    assert_eq!(Unit::Mebi.to_string(), "MiB");
    assert_eq!(Unit::Tera.value(), 1_000_000_000_000);
}

#[test]
fn parse_parts_splits_value_and_unit() {
    assert_eq!(Size::parse_parts(" 1.5 KiB "), Ok(("1.5", Unit::Kibi)));
    assert_eq!(Size::parse_parts("999B"), Err(Error::Size));
    assert_eq!(Size::parse_parts("999 QB"), Err(Error::Unit));
}

#[test]
fn pad_zero_and_plus() {
    let layout = Layout { width: Some(6), align: None, fill: '*', plus: true, zero: true };
    assert_eq!(pad("42", &layout), "+00042");
    let layout = Layout { width: Some(6), align: Some(Align::Center), fill: '*', plus: false, zero: false };
    assert_eq!(pad("42", &layout), "**42**");
}

#[test]
fn split_parts_takes_trimmed_text() {
    assert_eq!(Size::split_parts("1.001 KiB"), Ok(("1.001", Unit::Kibi)));
    assert_eq!(Size::split_parts("12 kb"), Ok(("12", Unit::Kilo)));
    assert_eq!(Size::split_parts("12"), Err(Error::Size));
    assert_eq!(Size::split_parts("12 XB"), Err(Error::Unit));
}

#[test]
fn unit_symbols_read_back_in_any_case() {
    for u in [
        Unit::Byte, Unit::Kilo, Unit::Kibi, Unit::Mega, Unit::Mebi, Unit::Giga, Unit::Gibi,
        Unit::Tera, Unit::Tebi, Unit::Peta, Unit::Pebi, Unit::Exa, Unit::Exbi,
    ] {
        assert_eq!(Unit::from_str(&u.to_string()), Ok(u));
        assert_eq!(Unit::from_str(&u.to_string().to_lowercase()), Ok(u));
    }
    assert_eq!(Unit::from_str("kIb"), Ok(Unit::Kibi));
}

#[test]
fn size_converts_to_and_from_integers() {
    assert_eq!(u64::from(Size::Kilo(3u64)), 3000);
    assert_eq!(u64::from(Size::Kibi(3u64)), 3072);
    assert_eq!(u64::from(Size::Exbi(1u64)), EiB);
    assert_eq!(Size::from(1000u64), Size::Kilo(1u64));
}

#[test]
fn parse_parts_trims_unicode_white_space() {
    assert_eq!(Size::parse_parts("\u{a0}\t1 KB\u{3000}\n"), Ok(("1", Unit::Kilo)));
    assert_eq!(Size::parse_parts("   "), Err(Error::Size));
}

#[test]
fn parse_parts_reads_unit_in_any_case() {
    assert_eq!(Size::parse_parts("2 mib"), Ok(("2", Unit::Mebi)));
    assert_eq!(Size::parse_parts("2 mibs"), Err(Error::Unit));
}

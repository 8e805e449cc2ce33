use std::path::PathBuf;

use rugby::cfg::cli::{cart_load, Load, MissingCart, Model as CliModel, Speed as CliSpeed, FREQUENCY};
use rugby::cfg::group::{Audio, Cart as CartGroup};
use rugby::cfg::model::{Dmg, Model, ParseError, Rev, When};
use rugby::cfg::opt::{Boot, Cart, Emulator};
use rugby::cfg::speed::{frame_freq, parse, Form, ParseSpeedError};

#[test]
fn model_parses_platform_and_revision() {
    assert_eq!(Model::from_str("dmg"), Ok(Model::Dmg(Dmg { rev: None })));
    assert_eq!(Model::from_str("dmg:0"), Ok(Model::Dmg(Dmg { rev: Some(Rev::Zero) })));
    assert_eq!(Model::from_str("dmg:C"), Ok(Model::Dmg(Dmg { rev: Some(Rev::C) })));
    assert_eq!(Model::from_str("cgb"), Err(ParseError::Platform));
    assert_eq!(Model::from_str("dm"), Err(ParseError::Platform));
    assert_eq!(Model::from_str("dmg:D"), Err(ParseError::Revision));
    assert_eq!(Model::from_str("dmgA"), Err(ParseError::Revision));
    assert_eq!(Model::from_str("dmg:a"), Err(ParseError::Revision));
}

#[test]
fn model_is_written_as_parsed() {
    for rev in [None, Some(Rev::Zero), Some(Rev::A), Some(Rev::B), Some(Rev::C)] {
        let model = Model::Dmg(Dmg { rev });
        assert_eq!(Model::from_str(&model.to_string()), Ok(model));
    }
    assert_eq!(Model::Dmg(Dmg { rev: Some(Rev::B) }).to_string(), "dmg:B");
    assert_eq!(Model::default().to_string(), "dmg");
    assert_eq!(Rev::default(), Rev::C);
    assert_eq!(When::default(), When::Auto);
}

#[test]
fn merge_takes_the_right_where_present() {
    let mut left = Dmg { rev: Some(Rev::A) };
    left.merge(Dmg { rev: None });
    assert_eq!(left.rev, Some(Rev::A));
    left.merge(Dmg { rev: Some(Rev::B) });
    assert_eq!(left.rev, Some(Rev::B));

    let mut audio = Audio { rate: 48_000 };
    audio.merge(Audio { rate: 0 });
    assert_eq!(audio.rate, 48_000);
    audio.merge(Audio { rate: 44_100 });
    assert_eq!(audio.rate, 44_100);

    let mut cart = CartGroup { check: true, force: false, save: None };
    cart.merge(CartGroup { check: false, force: true, save: Some(When::Never) });
    assert!(cart.check && cart.force);
    assert_eq!(cart.save, Some(When::Never));
}

#[test]
fn emulator_merge_and_ram_path() {
    let mut emu = Emulator::default();
    emu.merge(Emulator {
        boot: Boot { rom: Some(PathBuf::from("dmg.bin")), skip: false },
        cart: Cart { rom: Some(PathBuf::from("games/tetris.gb")), check: true, force: false, save: None },
    });
    assert_eq!(emu.boot.rom, Some(PathBuf::from("dmg.bin")));
    assert!(emu.cart.check);
    assert_eq!(emu.cart.ram(), Some(PathBuf::from("games/tetris.sav")));
    assert_eq!(Cart::default().ram(), None);
}

#[test]
fn speed_parses_each_form() {
    assert_eq!(parse("actual").unwrap(), Form::Actual);
    assert_eq!(parse("turbo").unwrap(), Form::Turbo);
    assert_eq!(parse("1.5x").unwrap(), Form::Ratio("1.5".to_string()));
    assert_eq!(parse("6291456hz").unwrap(), Form::Clock(6_291_456));
    assert_eq!(parse("90fps").unwrap(), Form::Frame(90));
    assert!(matches!(parse(""), Err(ParseSpeedError::Empty)));
    assert!(matches!(parse("fast"), Err(ParseSpeedError::Unknown)));
    assert!(matches!(parse("300fps"), Err(ParseSpeedError::ParseInt(_))));
    assert!(matches!(parse("hz"), Err(ParseSpeedError::ParseInt(_))));
    assert_eq!(frame_freq(60), 4_213_440);
}

#[test]
fn cli_speed_frequencies() {
    assert_eq!(CliSpeed::Half.freq(), Some(FREQUENCY / 2));
    assert_eq!(CliSpeed::default().freq(), Some(4_194_304));
    assert_eq!(CliSpeed::Double.freq(), Some(8_388_608));
    assert_eq!(CliSpeed::Rate(60).freq(), Some(4_194_300));
    assert_eq!(CliSpeed::Rate(255).freq(), Some(69_905 * 255));
    assert_eq!(CliSpeed::Freq(1234).freq(), Some(1234));
    assert_eq!(CliSpeed::Max.freq(), None);
    assert_eq!(CliModel::default(), CliModel::Dmg);
}

#[test]
fn merge_layers_in_any_grouping() {
    // (a <- b) <- c gives what a <- (b <- c) gives.
    let (a, b, c) = (Some(Rev::A), None, Some(Rev::C));
    let mut left = Dmg { rev: a };
    left.merge(Dmg { rev: b });
    left.merge(Dmg { rev: c });
    let mut right = Dmg { rev: b };
    right.merge(Dmg { rev: c });
    let mut grouped = Dmg { rev: a };
    grouped.merge(right);
    assert_eq!(left, grouped);
    let mut base = Dmg::default();
    base.merge(Dmg { rev: Some(Rev::Zero) });
    assert_eq!(base.rev, Some(Rev::Zero));
}

#[test]
fn ram_path_keeps_directory_and_name() {
    let cart = Cart { rom: Some(PathBuf::from("roms/game.gb")), check: false, force: false, save: None };
    assert_eq!(cart.ram(), Some(PathBuf::from("roms/game.sav")));
    let cart = Cart { rom: Some(PathBuf::from("game")), check: false, force: false, save: None };
    assert_eq!(cart.ram(), Some(PathBuf::from("game.sav")));
}

#[test]
fn cart_load_choices() {
    assert_eq!(cart_load(true, true, true), Ok(Load::Unchecked));
    assert_eq!(cart_load(true, true, false), Ok(Load::Checked));
    assert_eq!(cart_load(true, false, false), Ok(Load::Plain));
    assert_eq!(cart_load(false, false, true), Ok(Load::Blank));
    assert_eq!(cart_load(false, true, false), Err(MissingCart));
}

use std::path::PathBuf;

use clap::builder::PathBufValueParser;
use clap::{Arg, ArgAction, Command};

/// The command line of the emulator: the path of the ROM and the debug flag.
fn command() -> Command {
    Command::new("gb_core")
        .arg(
            Arg::new("file")
                .help("Rom file path")
                .required(true)
                .value_parser(PathBufValueParser::new()),
        )
        .arg(Arg::new("debug").long("debug").action(ArgAction::SetTrue))
}

#[test]
fn verify_app() {
    command().debug_assert();
}

#[test]
fn command_line_reads_the_rom_path_and_the_debug_flag() {
    let matches = command()
        .try_get_matches_from(vec!["gb_core", "game.gb", "--debug"])
        .unwrap();
    assert_eq!(
        matches.get_one::<PathBuf>("file"),
        Some(&PathBuf::from("game.gb"))
    );
    assert!(matches.get_flag("debug"));

    assert!(command().try_get_matches_from(vec!["gb_core"]).is_err());
}

use std::path::PathBuf;

use yun_lib::cli::Cli;

#[test]
fn the_arguments_name_the_script() {
    let cli = Cli::new(Some(PathBuf::from("examples/hello_world.yun")));
    assert_eq!(cli.get_path(), Some(&PathBuf::from("examples/hello_world.yun")));
    assert_eq!(cli.into_path(), Some(PathBuf::from("examples/hello_world.yun")));
}

#[test]
fn no_argument_names_no_script() {
    let cli = Cli::new(None);
    assert_eq!(cli.get_path(), None);
    assert_eq!(cli.clone().into_path(), None);
}

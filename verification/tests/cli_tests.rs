use feature_flags::cli::{Cli, Commands};

fn parse(input: &Vec<&str>) -> Cli {
    let args: Vec<String> = input.iter().map(|s| s.to_string()).collect();
    Cli::parse_from(&args).unwrap()
}

#[test]
fn test_get_command() {
    let input = vec!["my_prog", "get", "-n", "test_name"];
    let cli = parse(&input);

    match cli.command {
        Commands::Get(get) => {
            assert_eq!("test_name", get.name.unwrap(), "Failed input: {:?}", input);
        }
        _ => panic!("Get subcommand was not called"),
    }
}

#[test]
fn test_get_all_command() {
    let input = vec!["my_prog", "get", "-a"];
    let cli = parse(&input);

    match cli.command {
        Commands::Get(get) => {
            assert_eq!(true, get.all, "Failed input: {:?}", input);
        }
        _ => panic!("Get subcommand was not called"),
    }
}

#[test]
fn test_delete_command() {
    let input = vec!["my_prog", "delete", "test_name"];
    let cli = parse(&input);

    match &cli.command {
        Commands::Delete(delete) => {
            assert_eq!("test_name", delete.name, "Failed input: {:?}", input);
        }
        _ => panic!("Delete subcommand was not called"),
    }
}

#[test]
fn test_create_command() {
    let cases = vec![
        vec!["my_prog", "create", "test_name"],
        vec!["my_prog", "create", "test_name"],
    ];

    for case in cases {
        let cli = parse(&case);

        match &cli.command {
            Commands::Create(create) => {
                assert_eq!(case[2], create.name);
            }
            _ => panic!("Case failed: {:?}", case),
        }
    }
}

#[test]
fn test_update_command() {
    let cases = vec![
        vec!["my_prog", "update", "-n", "test_name", "-v", "true"],
        vec!["my_prog", "update", "-n", "test_name", "-v", "false"],
    ];

    for case in cases {
        let cli = parse(&case);

        match cli.command {
            Commands::Update(update) => {
                assert_eq!(case[3], update.name, "Failed case: {:?}", case);
                assert_eq!(
                    case[5],
                    update.value.unwrap().to_string(),
                    "Failed case: {:?}",
                    case
                );
            }
            _ => panic!("Case failed: {:?}", case),
        }
    }
}

#[test]
fn test_update_command_flags_in_either_order() {
    let input = vec!["my_prog", "update", "-v", "true", "-n", "test_name"];
    let cli = parse(&input);

    match cli.command {
        Commands::Update(update) => {
            assert_eq!("test_name", update.name);
            assert_eq!(Some(true), update.value);
        }
        _ => panic!("Update subcommand was not called"),
    }
}

#[test]
fn test_long_flags() {
    let cli = parse(&vec!["my_prog", "get", "--name", "x"]);
    match cli.command {
        Commands::Get(get) => assert_eq!("x", get.name.unwrap()),
        _ => panic!("Get subcommand was not called"),
    }

    let cli = parse(&vec!["my_prog", "get", "--all"]);
    match cli.command {
        Commands::Get(get) => assert!(get.all),
        _ => panic!("Get subcommand was not called"),
    }
}

#[test]
fn test_rejected_argument_lists() {
    let bad: Vec<Vec<&str>> = vec![
        vec!["my_prog"],
        vec!["my_prog", "make", "x"],
        vec!["my_prog", "create"],
        vec!["my_prog", "create", "-x"],
        vec!["my_prog", "get"],
        vec!["my_prog", "get", "-n", "a", "-a"],
        vec!["my_prog", "update", "-n", "x", "-v", "maybe"],
        vec!["my_prog", "update", "-n", "x"],
        vec!["my_prog", "delete", "a", "b"],
    ];
    for case in bad {
        let args: Vec<String> = case.iter().map(|s| s.to_string()).collect();
        let parsed = Cli::parse_from(&args);
        assert!(parsed.is_err(), "should reject: {:?}", case);
        assert_eq!(parsed.err().unwrap(), "invalid arguments");
    }
}

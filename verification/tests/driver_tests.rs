use geo::cli::{Cli, CliError, Command};
use geo::ast::{Expr, Function, Program, Stmt, Type};
use geo::driver::{check_geo_path, compile_config, compile_to_asm, default_output_path, format_source_text};
use geo::target::{Target, TargetTriple};
use std::path::PathBuf;

#[test]
fn driver_crate_exposes_the_compiler_cli_contract() {
    let cli = Cli {
        command: Command::Check {
            input: "examples/return_42.geo".to_string(),
            target: Some("x86_64-linux".to_string()),
        },
    };

    assert!(matches!(cli.command, Command::Check { .. }));
}

#[test]
fn driver_exposes_pipeline_dump_commands() {
    let tokens = Cli::parse_from(["geo", "dump-tokens", "examples/hello_world.geo"]);
    let ast = Cli::parse_from(["geo", "dump-ast", "examples/hello_world.geo"]);
    let ir = Cli::parse_from(["geo", "dump-ir", "examples/hello_world.geo"]);

    assert!(matches!(tokens.command, Command::DumpTokens { .. }));
    assert!(matches!(ast.command, Command::DumpAst { .. }));
    assert!(matches!(ir.command, Command::DumpIr { .. }));
}

#[test]
fn command_line_options_reach_the_command() {
    let cli = Cli::parse_from(["geo", "build", "main.geo", "-o", "out", "--target=x86_64-windows", "--keep-temps"]);
    match cli.command {
        Command::Build { input, output, target, nasm, linker, keep_temps } => {
            assert_eq!(PathBuf::from(input), PathBuf::from("main.geo"));
            assert_eq!(output.map(PathBuf::from), Some(PathBuf::from("out")));
            assert_eq!(target.as_deref(), Some("x86_64-windows"));
            assert_eq!(nasm, "nasm");
            assert_eq!(linker, None);
            assert!(keep_temps);
        }
        _ => panic!("expected a build command"),
    }
    let run = Cli::parse_from(["geo", "run", "main.geo", "--", "a", "--b"]);
    match run.command {
        Command::Run { args, nasm, .. } => {
            assert_eq!(args, vec!["a".to_string(), "--b".to_string()]);
            assert_eq!(nasm, "nasm");
        }
        _ => panic!("expected a run command"),
    }
}

#[test]
fn malformed_command_lines_are_refused() {
    assert!(matches!(Cli::try_parse_from(&["geo"]), Err(CliError::MissingSubcommand)));
    assert!(matches!(Cli::try_parse_from(&["geo", "compile", "a.geo"]), Err(CliError::UnknownSubcommand)));
    assert!(matches!(Cli::try_parse_from(&["geo", "emit-asm", "a.geo"]), Err(CliError::InvalidArguments)));
    assert!(matches!(Cli::try_parse_from(&["geo", "check", "a.geo", "b.geo"]), Err(CliError::InvalidArguments)));
    assert!(matches!(Cli::try_parse_from(&["geo", "check", "a.geo", "--keep-temps"]), Err(CliError::InvalidArguments)));
    assert!(matches!(Cli::try_parse_from(&["geo", "check", "a.geo", "--target"]), Err(CliError::InvalidArguments)));
    assert!(matches!(Cli::try_parse_from(&["geo", "check", "--target", "x", "--target", "y", "a.geo"]), Err(CliError::InvalidArguments)));
    assert!(matches!(Cli::try_parse_from(&["geo", "fmt", "-x", "a.geo"]), Err(CliError::InvalidArguments)));
    assert!(Cli::try_parse_from(&["geo", "emit-obj", "a.geo", "--output", "a.o"]).is_ok());
}

#[test]
fn only_geo_files_are_sources() {
    assert!(check_geo_path("examples/main.geo").is_ok());
    assert!(check_geo_path("dir/x.geo/").is_ok());
    let err = check_geo_path("examples/not_geo.txt").unwrap_err();
    assert!(err[0].message.contains(".geo extension"));
    assert!(check_geo_path(".geo").is_err());
    assert!(check_geo_path("geo").is_err());
    assert!(check_geo_path("a.tar.geo").is_ok());
    assert!(check_geo_path("a.geox").is_err());
    // A trailing `.` component names the directory before it, as `Path::extension` reads it.
    assert!(check_geo_path("dir/x.geo/.").is_ok());
    assert!(check_geo_path("x.geo/..").is_err());
    assert!(check_geo_path("/.").is_err());
}

#[test]
fn formatting_strips_trailing_white_space() {
    assert_eq!(format_source_text("fn main() {  \n    return 1\t\n}"), "fn main() {\n    return 1\n}\n");
    assert_eq!(format_source_text(""), "\n");
    assert_eq!(format_source_text("a\r\nb\n\n"), "a\nb\n\n");
    assert_eq!(format_source_text("  \n"), "\n");
}

#[test]
fn formatting_twice_changes_nothing_more() {
    for source in ["", "a  \n b \n", "x\n\n\n  ", "\t\n\r\n", "fn f() {\n}\n"] {
        let once = format_source_text(source);
        assert_eq!(format_source_text(&once), once);
    }
}

#[test]
fn configuration_uses_the_named_target_or_the_host() {
    let host = Target::linux_x86_64();
    let config = compile_config(Some("x86_64-windows".to_string()), host, "nasm".to_string(), None, false, true).ok().unwrap();
    assert_eq!(config.target.triple, TargetTriple::X86_64Windows);
    assert_eq!(config.linker, "gcc");
    assert!(config.runtime_entry);
    let config = compile_config(None, host, "yasm".to_string(), Some("ld".to_string()), true, false).ok().unwrap();
    assert_eq!(config.target.triple, TargetTriple::X86_64Linux);
    assert_eq!(config.nasm, "yasm");
    assert_eq!(config.linker, "ld");
    let err = compile_config(Some("arm".to_string()), host, "nasm".to_string(), None, false, false).err().unwrap();
    assert_eq!(err[0].message, "unsupported target 'arm'");
}

#[test]
fn a_checked_program_compiles_to_assembly() {
    let program = Program {
        imports: Vec::new(),
        type_aliases: Vec::new(),
        consts: Vec::new(),
        structs: Vec::new(),
        enums: Vec::new(),
        externs: Vec::new(),
        functions: vec![Function {
            name: "main".to_string(),
            params: Vec::new(),
            return_type: Type::Int,
            body: vec![Stmt::Return(Some(Expr::Int(42)))],
            span: Default::default(),
            statement_spans: Vec::new(),
            expression_spans: Vec::new(),
            statement_expression_ranges: Vec::new(),
            source_path: None,
        }],
    };
    let config = compile_config(Some("x86_64-linux".to_string()), Target::linux_x86_64(), "nasm".to_string(), None, false, false)
        .ok()
        .unwrap();
    let text = compile_to_asm(&program, &config).unwrap();
    assert!(text.starts_with("global main\n"));
    assert!(text.contains("main:\n"));
    assert!(text.contains("42"));
    let entry = compile_config(None, Target::linux_x86_64(), "nasm".to_string(), None, false, true).ok().unwrap();
    let text = compile_to_asm(&program, &entry).unwrap();
    assert!(text.starts_with("global geo_main\n"));
}

#[test]
fn a_load_of_an_unknown_local_is_not_emittable() {
    let program = Program {
        imports: Vec::new(),
        type_aliases: Vec::new(),
        consts: Vec::new(),
        structs: Vec::new(),
        enums: Vec::new(),
        externs: Vec::new(),
        functions: vec![Function {
            name: "main".to_string(),
            params: Vec::new(),
            return_type: Type::Int,
            body: vec![Stmt::Return(Some(Expr::Var("missing".to_string())))],
            span: Default::default(),
            statement_spans: Vec::new(),
            expression_spans: Vec::new(),
            statement_expression_ranges: Vec::new(),
            source_path: None,
        }],
    };
    let config = compile_config(None, Target::linux_x86_64(), "nasm".to_string(), None, false, false).ok().unwrap();
    assert!(compile_to_asm(&program, &config).is_none());
}

#[test]
fn builds_write_next_to_the_source_with_the_target_extension() {
    let linux = Target::linux_x86_64();
    let windows = Target::windows_x86_64();
    assert_eq!(default_output_path("examples/main.geo", &linux), "examples/main");
    assert_eq!(default_output_path("examples/main.geo", &windows), "examples/main.exe");
    assert_eq!(default_output_path("a.tar.geo", &windows), "a.tar.exe");
    assert_eq!(default_output_path("dir/.hidden", &windows), "dir/.hidden.exe");
    assert_eq!(default_output_path("dir/main.geo/", &linux), "dir/main");
    assert_eq!(default_output_path("..", &windows), "..");
}

use lambda_appsync::arguments::parse_macro_args;
use lambda_appsync::builder::{build_declarations, find_operation};
use lambda_appsync::errors::GenError;
use lambda_appsync::options::OptionalParameters;
use lambda_appsync::schema::{
    rust_type_text, ArgDef, EnumDef, FieldDef, GqlType, ObjectDef, OpKind, OperationDef,
    SchemaModel,
};

#[test]
fn test_schema_path_parsing() {
    let args = parse_macro_args(r#""schema.graphql""#).unwrap();
    assert_eq!(args.schema_path, "schema.graphql");

    let args = parse_macro_args(r#"  "graphql/schema.gql" , batch = false "#).unwrap();
    assert_eq!(args.schema_path, "graphql/schema.gql");
    assert!(!args.options.batch);

    assert_eq!(parse_macro_args("batch = true").unwrap_err(), GenError::MalformedSchemaPath);
}

#[test]
fn test_unknown_option_names_the_key() {
    let err = parse_macro_args(r#""s.graphql", unknown_opt = true"#).unwrap_err();
    assert_eq!(err, GenError::UnknownOption { key: "unknown_opt".to_string() });
}

#[test]
fn test_unknown_argument() {
    let err = parse_macro_args(r#""s.graphql", 42"#).unwrap_err();
    assert_eq!(err, GenError::UnknownArgument);
}

#[test]
fn test_malformed_values() {
    assert_eq!(
        parse_macro_args(r#""s.graphql", batch = maybe"#).unwrap_err(),
        GenError::MalformedOverrideSyntax
    );
    assert_eq!(
        parse_macro_args(r#""s.graphql", type_override = Player"#).unwrap_err(),
        GenError::MalformedOverrideSyntax
    );
    assert_eq!(
        parse_macro_args(r#""s.graphql", name_override = Team.PYTHON"#).unwrap_err(),
        GenError::MalformedOverrideSyntax
    );
}

#[test]
fn test_visibility_flag_precedence() {
    // only_appsync_types=true then exclude_lambda_handler=true
    let args = parse_macro_args(
        r#""s.graphql", only_appsync_types = true, exclude_lambda_handler = true"#,
    )
    .unwrap();
    assert!(!args.options.lambda_handler);
    assert!(args.options.appsync_types);
    assert!(!args.options.appsync_operations);
}

#[test]
fn test_exclude_false_is_noop() {
    let args = parse_macro_args(
        r#""s.graphql", exclude_appsync_types = true, exclude_appsync_types = false"#,
    )
    .unwrap();
    // a false-valued directive does not restore the cleared flag
    assert!(!args.options.appsync_types);
}

#[test]
fn test_trailing_comma_is_allowed() {
    let args = parse_macro_args(r#""s.graphql", batch = false,"#).unwrap();
    assert!(!args.options.batch);
    // an empty item that is not last stays an error
    let err = parse_macro_args(r#""s.graphql", , batch = false"#).unwrap_err();
    assert_eq!(err, GenError::UnknownArgument);
}

#[test]
fn test_spaces_inside_override_values() {
    let args = parse_macro_args(r#""s.graphql", type_override =  Player . id :  String "#)
        .unwrap();
    assert_eq!(
        args.options.field_type_overrides.get_value("Player.id"),
        Some(&"String".to_string())
    );
}

#[test]
fn test_only_lambda_handler_transition() {
    let args = parse_macro_args(r#""s.graphql", only_lambda_handler = true"#).unwrap();
    assert!(args.options.lambda_handler);
    assert!(!args.options.appsync_types);
    assert!(!args.options.appsync_operations);
}

#[test]
fn test_batch_last_writer_wins() {
    let args = parse_macro_args(r#""s.graphql", batch = true, batch = false"#).unwrap();
    assert!(!args.options.batch);
}

#[test]
fn test_hook_and_clients() {
    let args = parse_macro_args(
        r#""s.graphql", hook = verify_request, dynamodb() -> aws_sdk_dynamodb::Client, s3() -> aws_sdk_s3::Client"#,
    )
    .unwrap();
    assert_eq!(args.options.hook.as_deref(), Some("verify_request"));
    assert_eq!(args.clients.len(), 2);
    assert_eq!(args.clients[0].fct_name, "dynamodb");
    assert_eq!(args.clients[0].client_type, "aws_sdk_dynamodb::Client");
    assert_eq!(args.clients[1].fct_name, "s3");
    assert_eq!(args.clients[1].client_type, "aws_sdk_s3::Client");
}

#[test]
fn test_duplicate_client_names_rejected() {
    let err = parse_macro_args(
        r#""s.graphql", dynamodb() -> aws_sdk_dynamodb::Client, dynamodb() -> aws_sdk_s3::Client"#,
    )
    .unwrap_err();
    assert_eq!(err, GenError::MalformedClientSpec);
}

#[test]
fn test_field_and_arg_overrides_coexist() {
    let args = parse_macro_args(
        r#""s.graphql", type_override = Player.id: String, type_override = Player.id.key: u32"#,
    )
    .unwrap();
    assert_eq!(
        args.options.field_type_overrides.get_value("Player.id"),
        Some(&"String".to_string())
    );
    assert_eq!(args.options.arg_type_overrides.get_value("Player.id.key"), Some(&"u32".to_string()));
}

#[test]
fn test_second_field_override_replaces_first() {
    let args = parse_macro_args(
        r#""s.graphql", type_override = Player.id: String, type_override = Player.id: u64"#,
    )
    .unwrap();
    assert_eq!(args.options.field_type_overrides.get_value("Player.id"), Some(&"u64".to_string()));
}

#[test]
fn test_deprecated_alias_field_type_override() {
    let args =
        parse_macro_args(r#""s.graphql", field_type_override = Player.id: String"#).unwrap();
    assert_eq!(
        args.options.field_type_overrides.get_value("Player.id"),
        Some(&"String".to_string())
    );
}

#[test]
fn test_generic_type_with_comma_in_override() {
    let args = parse_macro_args(
        r#""s.graphql", type_override = Player.stats: HashMap<String, u32>"#,
    )
    .unwrap();
    assert_eq!(
        args.options.field_type_overrides.get_value("Player.stats"),
        Some(&"HashMap<String, u32>".to_string())
    );
}

fn player_schema() -> SchemaModel {
    SchemaModel {
        objects: vec![ObjectDef {
            obj_name: "Player".to_string(),
            is_input: false,
            fields: vec![
                FieldDef {
                    field_name: "id".to_string(),
                    field_type: GqlType::NonNull(Box::new(GqlType::Named("ID".to_string()))),
                },
                FieldDef {
                    field_name: "name".to_string(),
                    field_type: GqlType::NonNull(Box::new(GqlType::Named("String".to_string()))),
                },
            ],
        }],
        enums: vec![EnumDef {
            enum_name: "Team".to_string(),
            variants: vec!["RUST".to_string(), "PYTHON".to_string(), "JS".to_string()],
        }],
        operations: vec![OperationDef {
            kind: OpKind::Query,
            op_name: "player".to_string(),
            return_type: GqlType::Named("Player".to_string()),
            args: vec![ArgDef {
                arg_name: "id".to_string(),
                arg_type: GqlType::NonNull(Box::new(GqlType::Named("ID".to_string()))),
            }],
        }],
    }
}

#[test]
fn test_field_type_override_keeps_wire_name() {
    let args = parse_macro_args(r#""s.graphql", type_override = Player.id: String"#).unwrap();
    let decls = build_declarations(&player_schema(), &args.options);
    let player = &decls.types[0];
    assert_eq!(player.rust_name, "Player");
    assert_eq!(player.wire_name, "Player");
    let id = &player.fields[0];
    assert_eq!(id.rust_type, "String");
    assert_eq!(id.wire_name, "id");
    assert_eq!(id.rust_name, "id");
    // the other field keeps the default mapping
    assert_eq!(player.fields[1].rust_type, "String");
}

#[test]
fn test_variant_rename_keeps_wire_value() {
    let args = parse_macro_args(r#""s.graphql", name_override = Team.PYTHON: Snake"#).unwrap();
    let decls = build_declarations(&player_schema(), &args.options);
    let team = &decls.enums[0];
    assert_eq!(team.rust_name, "Team");
    let python = &team.variants[1];
    assert_eq!(python.rust_name, "Snake");
    assert_eq!(python.wire_value, "PYTHON");
    assert_eq!(team.variants[0].rust_name, "RUST");
    assert_eq!(team.variants[0].wire_value, "RUST");
}

#[test]
fn test_operation_overrides() {
    let args = parse_macro_args(
        r#""s.graphql", type_override = Query.player: NewPlayer, type_override = Query.player.id: String"#,
    )
    .unwrap();
    let decls = build_declarations(&player_schema(), &args.options);
    let op = &decls.operations[0];
    assert_eq!(op.op_name, "player");
    assert_eq!(op.rust_return_type, "NewPlayer");
    assert_eq!(op.args[0].arg_name, "id");
    assert_eq!(op.args[0].rust_type, "String");
}

#[test]
fn test_default_type_mapping() {
    // [Player!]! -> Vec<Player>
    let t = GqlType::NonNull(Box::new(GqlType::ListOf(Box::new(GqlType::NonNull(Box::new(
        GqlType::Named("Player".to_string()),
    ))))));
    assert_eq!(rust_type_text(&t), "Vec<Player>");
    // Int -> Option<i32>
    assert_eq!(rust_type_text(&GqlType::Named("Int".to_string())), "Option<i32>");
    // Boolean! -> bool
    assert_eq!(
        rust_type_text(&GqlType::NonNull(Box::new(GqlType::Named("Boolean".to_string())))),
        "bool"
    );
    // [String] -> Option<Vec<Option<String>>>
    assert_eq!(
        rust_type_text(&GqlType::ListOf(Box::new(GqlType::Named("String".to_string())))),
        "Option<Vec<Option<String>>>"
    );
}

#[test]
fn test_operation_routing() {
    let decls = build_declarations(&player_schema(), &OptionalParameters::default());
    assert_eq!(find_operation(&decls.operations, OpKind::Query, "player"), Some(0));
    assert_eq!(find_operation(&decls.operations, OpKind::Mutation, "player"), None);
    assert_eq!(find_operation(&decls.operations, OpKind::Query, "players"), None);
}

#[test]
fn test_type_rename_applies_to_declaration_only() {
    let args = parse_macro_args(r#""s.graphql", name_override = Player: NewPlayer"#).unwrap();
    let decls = build_declarations(&player_schema(), &args.options);
    assert_eq!(decls.types[0].rust_name, "NewPlayer");
    assert_eq!(decls.types[0].wire_name, "Player");
}

use backend::{CreateUserSchema, Param, Statement};

fn placeholders(sql: &str) -> usize {
    (1..=9).filter(|n| sql.contains(&format!("${n}"))).count()
}

#[test]
fn list_statement_binds_nothing() {
    let statement = Statement::list_users();
    assert_eq!(statement.sql, "SELECT * FROM user_profile");
    assert_eq!(statement.params, vec![]);
}

#[test]
fn insert_statement_binds_the_five_fields_in_column_order() {
    let user = CreateUserSchema {
        username: "alice".to_string(),
        first_name: "A".to_string(),
        last_name: "L".to_string(),
        email: "alice@x.com".to_string(),
        password: "p".to_string(),
    };
    let statement = Statement::insert_user(&user);
    assert_eq!(
        statement.sql,
        "INSERT INTO user_profile (username, first_name, last_name, email, password) VALUES ($1, $2, $3, $4, $5) RETURNING *"
    );
    assert_eq!(
        statement.params,
        vec![
            Param::Text("alice".to_string()),
            Param::Text("A".to_string()),
            Param::Text("L".to_string()),
            Param::Text("alice@x.com".to_string()),
            Param::Text("p".to_string()),
        ]
    );
}

#[test]
fn fetch_statement_binds_the_identifier() {
    let statement = Statement::fetch_user(999);
    assert_eq!(statement.sql, "SELECT * FROM user_profile WHERE id = $1");
    assert_eq!(statement.params, vec![Param::Int(999)]);
}

#[test]
fn delete_statement_binds_the_identifier() {
    let statement = Statement::delete_user(-3);
    assert_eq!(statement.sql, "DELETE FROM user_profile WHERE id = $1");
    assert_eq!(statement.params, vec![Param::Int(-3)]);
}

#[test]
fn every_statement_binds_as_many_values_as_it_has_placeholders() {
    let user = CreateUserSchema {
        username: String::new(),
        first_name: String::new(),
        last_name: String::new(),
        email: String::new(),
        password: String::new(),
    };
    let statements = [
        Statement::list_users(),
        Statement::insert_user(&user),
        Statement::fetch_user(1),
        Statement::delete_user(1),
    ];
    for statement in statements {
        assert_eq!(placeholders(statement.sql), statement.params.len(), "{}", statement.sql);
    }
}

use sea_orm::{ConnectionTrait, Database, DatabaseConnection, DbBackend, DbErr, QueryResult, Statement};
use sea_orm_migration::SchemaManager;
use todo_list::error::{access_result, lookup_result};
use todo_list::handler::{add_item, flip_item, flipped_item, root, FlipStep};
use todo_list::item::TodoItem;
use todo_list::migration::Migration;
use todo_list::service::{serve, Request};
use todo_list::table::TodoTable;
use todo_list::template::{ErrorTemplate, IndexTemplate};

fn run<F: std::future::Future>(future: F) -> F::Output {
    tokio::runtime::Builder::new_current_thread().enable_all().build().unwrap().block_on(future)
}

async fn connect() -> DatabaseConnection {
    Database::connect("sqlite::memory:").await.unwrap()
}

async fn migrated() -> DatabaseConnection {
    let db = connect().await;
    SchemaManager::new(&db).create_table(Migration.up()).await.unwrap();
    db
}

fn item_of(row: &QueryResult) -> Result<TodoItem, DbErr> {
    Ok(TodoItem::new(row.try_get("", "id")?, row.try_get("", "text")?, row.try_get("", "done")?))
}

async fn list_all(db: &DatabaseConnection) -> Result<Vec<TodoItem>, DbErr> {
    let rows = db
        .query_all(Statement::from_string(
            DbBackend::Sqlite,
            "SELECT id, text, done FROM todo_item ORDER BY id",
        ))
        .await?;
    rows.iter().map(item_of).collect()
}

async fn find_by_id(db: &DatabaseConnection, id: i32) -> Result<Option<TodoItem>, DbErr> {
    let row = db
        .query_one(Statement::from_sql_and_values(
            DbBackend::Sqlite,
            "SELECT id, text, done FROM todo_item WHERE id = ?",
            [id.into()],
        ))
        .await?;
    match row {
        Some(row) => Ok(Some(item_of(&row)?)),
        None => Ok(None),
    }
}

async fn insert(db: &DatabaseConnection, text: String) -> Result<TodoItem, DbErr> {
    let done = db
        .execute(Statement::from_sql_and_values(
            DbBackend::Sqlite,
            "INSERT INTO todo_item (text) VALUES (?)",
            [text.into()],
        ))
        .await?;
    let id = done.last_insert_id() as i32;
    match find_by_id(db, id).await? {
        Some(item) => Ok(item),
        None => Err(DbErr::RecordNotInserted),
    }
}

async fn update(db: &DatabaseConnection, item: TodoItem) -> Result<TodoItem, DbErr> {
    let done = db
        .execute(Statement::from_sql_and_values(
            DbBackend::Sqlite,
            "UPDATE todo_item SET done = ? WHERE id = ?",
            [item.done.into(), item.id.into()],
        ))
        .await?;
    if done.rows_affected() == 0 {
        return Err(DbErr::RecordNotUpdated);
    }
    match find_by_id(db, item.id).await? {
        Some(item) => Ok(item),
        None => Err(DbErr::RecordNotUpdated),
    }
}

async fn serve_from(db: &DatabaseConnection, request: Request) -> String {
    match request {
        Request::List => root(access_result(list_all(db).await)),
        Request::Add(text) => add_item(access_result(insert(db, text).await)),
        Request::Flip(id) => match flip_item(lookup_result(find_by_id(db, id).await)) {
            FlipStep::Update(item) => flipped_item(access_result(update(db, item).await)),
            FlipStep::Respond(html) => html,
        },
    }
}

async fn has_table(db: &DatabaseConnection) -> bool {
    let rows = db
        .query_all(Statement::from_string(
            DbBackend::Sqlite,
            "SELECT name FROM sqlite_master WHERE type = 'table' AND name = 'todo_item'",
        ))
        .await
        .unwrap();
    rows.len() == 1
}

#[test]
fn migration_creates_the_table() {
    run(async {
        let db = connect().await;
        assert!(!has_table(&db).await);
        assert!(SchemaManager::new(&db).create_table(Migration.up()).await.is_ok());
        assert!(has_table(&db).await);
        assert_eq!(list_all(&db).await.unwrap(), vec![]);
    });
}

#[test]
fn migration_run_twice_changes_nothing() {
    run(async {
        let db = migrated().await;
        insert(&db, "kept".to_string()).await.unwrap();
        assert!(SchemaManager::new(&db).create_table(Migration.up()).await.is_ok());
        assert!(has_table(&db).await);
        assert_eq!(list_all(&db).await.unwrap(), vec![TodoItem::new(1, "kept".to_string(), false)]);
    });
}

#[test]
fn migration_is_reverted_by_dropping_the_table() {
    run(async {
        let db = migrated().await;
        assert!(SchemaManager::new(&db).drop_table(Migration.down()).await.is_ok());
        assert!(!has_table(&db).await);
        assert!(SchemaManager::new(&db).drop_table(Migration.down()).await.is_err());
    });
}

#[test]
fn created_row_has_the_defaults_of_the_table() {
    run(async {
        let db = migrated().await;
        let item = insert(&db, "buy milk".to_string()).await.unwrap();
        assert_eq!(item, TodoItem::new(1, "buy milk".to_string(), false));
        let items = list_all(&db).await.unwrap();
        assert_eq!(items.len(), 1);
        assert_eq!(items[0].text, "buy milk");
        assert!(!items[0].done);
    });
}

#[test]
fn listing_without_the_table_shows_the_error_fragment() {
    run(async {
        let db = connect().await;
        assert_eq!(serve_from(&db, Request::List).await, ErrorTemplate.render());
        assert_eq!(serve_from(&db, Request::Add("a".to_string())).await, ErrorTemplate.render());
        assert_eq!(serve_from(&db, Request::Flip(1)).await, ErrorTemplate.render());
    });
}

#[test]
fn listing_the_empty_database_shows_a_page_without_rows() {
    run(async {
        let db = migrated().await;
        assert_eq!(serve_from(&db, Request::List).await, IndexTemplate { items: vec![] }.render());
    });
}

#[test]
fn flipping_a_missing_row_in_the_database_shows_the_error_fragment() {
    run(async {
        let db = migrated().await;
        assert_eq!(serve_from(&db, Request::Flip(1)).await, ErrorTemplate.render());
        insert(&db, "a".to_string()).await.unwrap();
        assert_eq!(serve_from(&db, Request::Flip(2)).await, ErrorTemplate.render());
        assert_eq!(list_all(&db).await.unwrap(), vec![TodoItem::new(1, "a".to_string(), false)]);
    });
}

#[test]
fn table_in_memory_answers_as_the_database_does() {
    run(async {
        let db = migrated().await;
        let mut table = TodoTable::new();
        let requests = vec![
            Request::List,
            Request::Flip(1),
            Request::Add("buy milk".to_string()),
            Request::Add("<b>tea & cake</b>".to_string()),
            Request::List,
            Request::Flip(2),
            Request::List,
            Request::Flip(2),
            Request::Flip(1),
            Request::Flip(3),
            Request::Flip(0),
            Request::Add(String::new()),
            Request::Flip(3),
            Request::List,
        ];
        for request in requests {
            let same = match &request {
                Request::List => Request::List,
                Request::Add(text) => Request::Add(text.clone()),
                Request::Flip(id) => Request::Flip(*id),
            };
            let from_database = serve_from(&db, request).await;
            let from_memory = serve(&mut table, same);
            assert_eq!(from_memory, from_database);
            assert_eq!(table.list_all(), list_all(&db).await.unwrap());
        }
        assert_eq!(
            table.list_all(),
            vec![
                TodoItem::new(1, "buy milk".to_string(), true),
                TodoItem::new(2, "<b>tea & cake</b>".to_string(), false),
                TodoItem::new(3, String::new(), true),
            ]
        );
    });
}

#[test]
fn inserts_at_the_same_time_get_keys_of_their_own() {
    let runtime = tokio::runtime::Builder::new_multi_thread().worker_threads(4).enable_all().build().unwrap();
    runtime.block_on(async {
        let db = migrated().await;
        let n = 20;
        let mut tasks = Vec::new();
        for k in 0..n {
            let db = db.clone();
            tasks.push(tokio::spawn(async move { insert(&db, format!("item {}", k)).await }));
        }
        let mut ids = Vec::new();
        for task in tasks {
            ids.push(task.await.unwrap().unwrap().id);
        }
        ids.sort();
        ids.dedup();
        assert_eq!(ids.len(), n);
        let items = list_all(&db).await.unwrap();
        assert_eq!(items.len(), n);
        let mut table = TodoTable::new();
        for item in &items {
            let added = table.insert(item.text.clone()).unwrap();
            assert_eq!(&added, item);
        }
    });
}

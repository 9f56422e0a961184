use keycloak_gateway::models::{Base, NewItem, UpdateItem};

#[test]
fn new_item_is_pending() {
    let item = NewItem::new(String::from("buy milk"), String::from("user-1"));
    assert_eq!(
        item,
        NewItem {
            title: String::from("buy milk"),
            user_id: String::from("user-1"),
            status: String::from("pending"),
        }
    );
}

#[test]
fn base_copies_title_and_status() {
    let base = Base::new("buy milk", "done");
    assert_eq!(base, Base { title: String::from("buy milk"), status: String::from("done") });
    let empty = Base::new("", "");
    assert_eq!(empty.title, "");
    assert_eq!(empty.status, "");
}

#[test]
fn update_item_holds_title_and_status() {
    let update = UpdateItem { title: String::from("buy milk"), status: String::from("done") };
    assert_eq!(update.title, "buy milk");
    assert_eq!(update.status, "done");
}

use libvelocity::Group;
use libvelocity::GroupError;
use libvelocity::Permission;
use libvelocity::PermissionError;
use libvelocity::User;
use libvelocity::UserError;
use libvelocity::VErrorType;

#[test]
fn user_keeps_what_it_is_given() {
    let user = User::new(3, "alice".to_string(), "secret".to_string());
    assert_eq!(user.uid(), 3);
    assert_eq!(user.username, "alice");
    assert_eq!(user.pwhash, "secret");
    assert_eq!(user.to_string(), "alice (3)");
    let copy = user.clone();
    assert_eq!(copy.uid(), 3);
    assert_eq!(copy.username, "alice");
    assert_eq!(copy.pwhash, "secret");
}

#[test]
fn user_id_is_written_in_decimal() {
    assert_eq!(User::new(0, "root".to_string(), String::new()).to_string(), "root (0)");
    assert_eq!(User::new(9, "a".to_string(), String::new()).to_string(), "a (9)");
    assert_eq!(User::new(10, "a".to_string(), String::new()).to_string(), "a (10)");
    assert_eq!(User::new(1_234_567_890, "a".to_string(), String::new()).to_string(), "a (1234567890)");
    assert_eq!(User::new(u32::MAX, String::new(), String::new()).to_string(), " (4294967295)");
}

#[test]
fn user_of_a_row_has_the_low_bits_of_the_id() {
    assert_eq!(User::from_row(5, "a".to_string(), "b".to_string()).uid(), 5);
    assert_eq!(User::from_row(u32::MAX as i64, "a".to_string(), "b".to_string()).uid(), u32::MAX);
    assert_eq!(User::from_row((1i64 << 32) + 5, "a".to_string(), "b".to_string()).uid(), 5);
    assert_eq!(User::from_row(-1, "a".to_string(), "b".to_string()).uid(), u32::MAX);
    let user = User::from_row(1, "name".to_string(), "hash".to_string());
    assert_eq!(user.username, "name");
    assert_eq!(user.pwhash, "hash");
}

#[test]
fn user_that_was_found_is_handed_on() {
    let found = Some(User::new(3, "alice".to_string(), "secret".to_string()));
    let user = User::found_by_uid(found, 3).expect("the user was found");
    assert_eq!(user.uid(), 3);
    let found = Some(User::new(4, "bob".to_string(), "secret".to_string()));
    let user = User::found_by_username(found, "bob").expect("the user was found");
    assert_eq!(user.username, "bob");
}

#[test]
fn user_id_that_was_not_found_is_an_error() {
    let e = User::found_by_uid(None, 17).expect_err("nobody was found");
    assert!(matches!(e.error, VErrorType::User(UserError::UserIDNotFound(17))));
    assert_eq!(e.context.len(), 1);
    assert_eq!(e.context[0], "Selecting user by uid: 17");
    assert_eq!(e.error.to_string(), "User ID 17 not found");
}

#[test]
fn username_that_was_not_found_is_an_error() {
    let e = User::found_by_username(None, "carol").expect_err("nobody was found");
    match &e.error {
        VErrorType::User(UserError::UsernameNotFound(name)) => assert_eq!(name, "carol"),
        other => panic!("{other:?}"),
    }
    assert_eq!(e.context.len(), 1);
    assert_eq!(e.context[0], "Selecting user by username: 'carol'");
    assert_eq!(e.error.to_string(), "Username 'carol' not found");
}

#[test]
fn user_errors_say_what_was_not_found() {
    assert_eq!(UserError::UserIDNotFound(0).to_string(), "User ID 0 not found");
    assert_eq!(UserError::UserIDNotFound(4_294_967_295).to_string(), "User ID 4294967295 not found");
    assert_eq!(UserError::UsernameNotFound("x y".to_string()).to_string(), "Username 'x y' not found");
    assert_eq!(UserError::UsernameNotFound(String::new()).to_string(), "Username '' not found");
}

#[test]
fn group_keeps_what_it_is_given() {
    let group = Group::new(3, Some(1), "staff".to_string());
    assert_eq!(group.gid(), 3);
    assert_eq!(group.parent_gid(), Some(1));
    assert_eq!(group.lossy_parent_gid(), 1);
    assert_eq!(group.groupname, "staff");
    assert_eq!(group.to_string(), "staff (3)");
    let copy = group.clone();
    assert_eq!(copy.gid(), 3);
    assert_eq!(copy.parent_gid(), Some(1));
    assert_eq!(copy.groupname, "staff");
}

#[test]
fn group_without_parent_counts_as_child_of_root() {
    let group = Group::new(3, None, "staff".to_string());
    assert_eq!(group.parent_gid(), None);
    assert_eq!(group.lossy_parent_gid(), 0);
    let child = Group::new(4, Some(0), "staff".to_string());
    assert_eq!(child.parent_gid(), Some(0));
    assert_eq!(child.lossy_parent_gid(), 0);
}

#[test]
fn new_group_is_entered_under_its_parent() {
    let parent = Group::new(12, None, "staff".to_string());
    assert_eq!(Group::parent_gid_of(Some(&parent)), 12);
    assert_eq!(Group::parent_gid_of(None), 0);
}

#[test]
fn group_of_a_row_has_the_low_bits_of_the_ids() {
    let group = Group::from_row(7, Some(2), "g".to_string());
    assert_eq!(group.gid(), 7);
    assert_eq!(group.parent_gid(), Some(2));
    assert_eq!(group.groupname, "g");
    let group = Group::from_row((1i64 << 32) + 7, Some(-1), "g".to_string());
    assert_eq!(group.gid(), 7);
    assert_eq!(group.parent_gid(), Some(u32::MAX));
    let group = Group::from_row(-2, None, "g".to_string());
    assert_eq!(group.gid(), u32::MAX - 1);
    assert_eq!(group.parent_gid(), None);
}

#[test]
fn group_that_was_found_is_handed_on() {
    let group = Group::found_by_gid(Some(Group::new(3, None, "staff".to_string())), 3).expect("the group was found");
    assert_eq!(group.gid(), 3);
    let group = Group::found_by_groupname(Some(Group::new(3, None, "staff".to_string())), "staff")
        .expect("the group was found");
    assert_eq!(group.groupname, "staff");
}

#[test]
fn group_that_was_not_found_is_an_error() {
    let e = Group::found_by_gid(None, 250).expect_err("nothing was found");
    assert!(matches!(e.error, VErrorType::Group(GroupError::GroupIDNotFound(250))));
    assert_eq!(e.context.len(), 1);
    assert_eq!(e.context[0], "Selecting group by gid: 250");

    let e = Group::found_by_groupname(None, "staff").expect_err("nothing was found");
    match &e.error {
        VErrorType::Group(GroupError::GroupnameNotFound(name)) => assert_eq!(name, "staff"),
        other => panic!("{other:?}"),
    }
    assert_eq!(e.context.len(), 1);
    assert_eq!(e.context[0], "Selecting group by groupname: 'staff'");
}

#[test]
fn group_errors_say_what_was_not_found() {
    assert_eq!(GroupError::GroupIDNotFound(31).to_string(), "Group ID 31 not found");
    assert_eq!(GroupError::GroupnameNotFound("staff".to_string()).to_string(), "Groupname 'staff' not found");
}

#[test]
fn permission_keeps_what_it_is_given() {
    let permission = Permission::new(8, "velocity.user.create".to_string());
    assert_eq!(permission.id(), 8);
    assert_eq!(permission.name, "velocity.user.create");
}

#[test]
fn permission_of_a_row_has_the_low_bits_of_the_id() {
    assert_eq!(Permission::from_row(8, "p".to_string()).id(), 8);
    assert_eq!(Permission::from_row((3i64 << 32) + 8, "p".to_string()).id(), 8);
    assert_eq!(Permission::from_row(-1, "p".to_string()).id(), u32::MAX);
    assert_eq!(Permission::from_row(8, "p".to_string()).name, "p");
}

#[test]
fn permission_that_was_not_found_is_an_error() {
    let found = Permission::found_by_name(Some(Permission::new(8, "p".to_string())), "p").expect("it was found");
    assert_eq!(found.id(), 8);

    let e = Permission::found_by_name(None, "p").expect_err("nothing was found");
    match &e.error {
        VErrorType::Permission(PermissionError::PermissionNotFound(name)) => assert_eq!(name, "p"),
        other => panic!("{other:?}"),
    }
    assert_eq!(e.context.len(), 1);
    assert_eq!(e.context[0], "Selecting permission by name: 'p'");
    assert_eq!(PermissionError::PermissionNotFound("p".to_string()).to_string(), "Permission 'p' not found");
}

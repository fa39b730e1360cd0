use lists::List;

#[test]
fn basics() {
    let mut list = List::new();

    // Check empty list behaves right
    assert_eq!(list.pop(), None);

    // Populate list
    list.push(1);
    list.push(2);
    list.push(3);

    // Check normal removal
    assert_eq!(list.pop(), Some(3));
    assert_eq!(list.pop(), Some(2));

    // Push some more just to make sure nothing's corrupted
    list.push(4);
    list.push(5);

    // Check normal removal
    assert_eq!(list.pop(), Some(5));
    assert_eq!(list.pop(), Some(4));

    // Check exhaustion
    assert_eq!(list.pop(), Some(1));
    assert_eq!(list.pop(), None);
}

#[test]
fn basics_str() {
    let mut list = List::new();

    // Check empty list behaves right
    assert_eq!(list.pop(), None);

    // Populate list
    list.push("1");
    list.push("2");
    list.push("3");

    // Check normal removal
    assert_eq!(list.pop(), Some("3"));
    assert_eq!(list.pop(), Some("2"));

    // Push some more just to make sure nothing's corrupted
    list.push("4");
    list.push("5");

    // Check normal removal
    assert_eq!(list.pop(), Some("5"));
    assert_eq!(list.pop(), Some("4"));

    // Check exhaustion
    assert_eq!(list.pop(), Some("1"));
    assert_eq!(list.pop(), None);
}

#[test]
fn peek() {
    let mut list = List::new();
    assert_eq!(list.peek(), None);
    assert_eq!(list.peek_mut(), None);
    list.push(1);
    list.push(2);
    list.push(3);

    assert_eq!(list.peek(), Some(&3));
    assert_eq!(list.peek_mut(), Some(&mut 3));
    list.peek_mut().map(|value| *value = 42);

    assert_eq!(list.peek(), Some(&42));
    assert_eq!(list.pop(), Some(42));
}

#[test]
fn peek_string() {
    let mut list = List::new();
    assert_eq!(list.peek(), None);
    assert_eq!(list.peek_mut(), None);
    list.push("1".to_string());
    list.push("2".to_string());
    list.push("3".to_string());

    assert_eq!(list.peek(), Some(&"3".to_string()));
    list.peek_mut().map(|value| *value = "42".to_string());

    assert_eq!(list.peek(), Some(&"42".to_string()));
    assert_eq!(list.pop(), Some("42".to_string()));
}

#[test]
fn big_stack() {
    let mut list = List::new();
    for i in 1..1000000 {
        list.push(i);
    }

    // stack overflow in drop?
}

use hello_rpc::composite_entity::Client;
use hello_rpc::visitor::{Computer, ComputerPartDisplayVisitor, ComputerPartType};

#[test]
fn test_composite_entity() {
    let mut client = Client::new();

    client.set_data("Test", "Data");
    for d in client.get_data() {
        println!("Data: {}", d.unwrap());
    }

    client.set_data("Second Test", "Data2");
    for d in client.get_data() {
        println!("Data: {}", d.unwrap());
    }
}

#[test]
fn composite_entity_stores_latest_data() {
    let mut client = Client::new();
    assert_eq!(client.get_data(), vec![None, None]);

    client.set_data("Test", "Data");
    assert_eq!(client.get_data(), vec![Some("Test"), Some("Data")]);

    client.set_data("Second Test", "Data2");
    assert_eq!(client.get_data(), vec![Some("Second Test"), Some("Data2")]);
}

#[test]
fn test_visitor() {
    let computer = Computer::new();
    let mut computer_part_display_visitor = ComputerPartDisplayVisitor::new();
    computer.accept(&mut computer_part_display_visitor);
    for t in &computer_part_display_visitor.seen {
        println!("Displaying {}.", t.as_str());
    }
}

#[test]
fn visitor_sees_parts_then_computer() {
    let computer = Computer::new();
    let mut visitor = ComputerPartDisplayVisitor::new();
    computer.accept(&mut visitor);
    assert_eq!(
        visitor.seen,
        vec![
            ComputerPartType::KEYBOARD,
            ComputerPartType::MOUSE,
            ComputerPartType::MONITOR,
            ComputerPartType::COMPUTER,
        ]
    );
}

#[test]
fn part_type_names() {
    assert_eq!(ComputerPartType::KEYBOARD.as_str(), "Keyboard");
    assert_eq!(ComputerPartType::MOUSE.as_str(), "Mouse");
    assert_eq!(ComputerPartType::MONITOR.as_str(), "Monitor");
    assert_eq!(ComputerPartType::COMPUTER.as_str(), "Computer");
}

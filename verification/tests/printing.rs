use arcrelay_desktop::printing::{printer_queue_name, shared_printer_name};

#[test]
fn queue_names_are_portable() {
    assert_eq!(printer_queue_name("HP LaserJet 400", "abcdef0123456789"), "ArcRelay_HP_LaserJet_400_abcdef01");
    assert_eq!(printer_queue_name("打印机", "zz12"), "ArcRelay_Printer_12");
    assert_eq!(printer_queue_name("a - b", "g"), "ArcRelay_a_-_b_");
    assert_eq!(printer_queue_name("x!!y", "ABC-def"), "ArcRelay_x_y_ABCdef");
    let long = "a".repeat(200);
    let name = printer_queue_name(&long, "1");
    assert_eq!(name, format!("ArcRelay_{}_1", "a".repeat(87)));
}

#[test]
fn received_jobs_name_their_share() {
    let shares = vec![("s1".to_string(), "Office".to_string()), ("s2".to_string(), "Home".to_string())];
    assert_eq!(shared_printer_name(&shares, "s2"), "Home");
    assert_eq!(shared_printer_name(&shares, "s3"), "local shared printer");
}

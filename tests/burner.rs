use paper::burner::pointlessly_complex_task;

#[test]
fn burner_doubles_and_adds_a_hundred() {
    assert_eq!(pointlessly_complex_task(0), 100);
    assert_eq!(pointlessly_complex_task(5), 110);
    assert_eq!(pointlessly_complex_task(-50), 0);
    assert_eq!(pointlessly_complex_task(-1_000), -1_900);
}

#[test]
fn burner_at_the_edge_of_i32() {
    assert_eq!(pointlessly_complex_task(1_073_741_773), i32::MAX - 1);
    assert_eq!(pointlessly_complex_task(-1_073_741_874), i32::MIN);
}

use cadastro_clientes::ident::render_id;

#[test]
fn single_digits() {
    assert_eq!(render_id(0), "0");
    assert_eq!(render_id(1), "1");
    assert_eq!(render_id(9), "9");
}

#[test]
fn several_digits_most_significant_first() {
    assert_eq!(render_id(10), "10");
    assert_eq!(render_id(42), "42");
    assert_eq!(render_id(1_234_567_890), "1234567890");
    assert_eq!(render_id(100_000), "100000");
}

#[test]
fn largest_number() {
    assert_eq!(render_id(u64::MAX), "18446744073709551615");
}

#[test]
fn different_numbers_give_different_identifiers() {
    let mut seen: Vec<String> = Vec::new();
    for n in 0..500u64 {
        let id = render_id(n);
        assert!(!seen.contains(&id));
        seen.push(id);
    }
}

use roqoqo_aqt::{merge_results, RegisterMap, Registers};

#[test]
fn test_register_map_insert_and_get() {
    let mut map: RegisterMap<bool> = RegisterMap::new();
    assert_eq!(map.len(), 0);
    assert!(map.get("ro").is_none());
    map.insert("ro".to_string(), vec![vec![true]]);
    map.insert("rx".to_string(), vec![]);
    assert_eq!(map.len(), 2);
    assert!(map.contains_key("ro"));
    assert!(!map.contains_key("r"));
    assert_eq!(map.get("ro").unwrap(), &vec![vec![true]]);
    map.insert("ro".to_string(), vec![vec![false], vec![true]]);
    assert_eq!(map.len(), 2);
    assert_eq!(map.get("ro").unwrap(), &vec![vec![false], vec![true]]);
    let mut keys = map.keys();
    keys.sort();
    assert_eq!(keys, vec!["ro".to_string(), "rx".to_string()]);
}

#[test]
fn test_register_map_push() {
    let mut map: RegisterMap<u64> = RegisterMap::new();
    map.insert("a".to_string(), vec![]);
    assert!(map.push("a", vec![1, 2]));
    assert!(map.push("a", vec![3]));
    assert!(!map.push("b", vec![4]));
    assert_eq!(map.get("a").unwrap(), &vec![vec![1, 2], vec![3]]);
    assert!(map.get("b").is_none());
    assert_eq!(map.len(), 1);
}

#[test]
fn test_register_map_extend() {
    let mut map: RegisterMap<bool> = RegisterMap::new();
    map.extend("a".to_string(), vec![vec![true]]);
    map.extend("a".to_string(), vec![vec![false], vec![true]]);
    map.extend("b".to_string(), vec![]);
    assert_eq!(map.get("a").unwrap(), &vec![vec![true], vec![false], vec![true]]);
    assert_eq!(map.get("b").unwrap(), &Vec::<Vec<bool>>::new());
}

#[test]
fn test_register_map_merge_appends_and_inserts() {
    let mut first: RegisterMap<bool> = RegisterMap::new();
    first.insert("ro".to_string(), vec![vec![true], vec![false]]);
    first.insert("only_first".to_string(), vec![vec![true, true]]);
    let mut second: RegisterMap<bool> = RegisterMap::new();
    second.insert("only_second".to_string(), vec![vec![false, false]]);
    second.insert("ro".to_string(), vec![vec![false], vec![true], vec![true]]);
    first.merge(second);
    assert_eq!(first.len(), 3);
    assert_eq!(
        first.get("ro").unwrap(),
        &vec![vec![true], vec![false], vec![false], vec![true], vec![true]]
    );
    assert_eq!(first.get("only_first").unwrap(), &vec![vec![true, true]]);
    assert_eq!(first.get("only_second").unwrap(), &vec![vec![false, false]]);
}

fn run_with(name: &str, shots: Vec<Vec<bool>>) -> Registers {
    let mut registers = Registers::new();
    registers.bit.insert(name.to_string(), shots);
    registers
}

#[test]
fn test_merge_results_keeps_the_order_of_the_runs() {
    let runs = vec![
        run_with("ro", vec![vec![true]]),
        run_with("ro", vec![vec![false], vec![false]]),
        run_with("rx", vec![vec![true, true]]),
        run_with("ro", vec![vec![true]]),
    ];
    let total = merge_results(runs);
    assert_eq!(
        total.bit.get("ro").unwrap(),
        &vec![vec![true], vec![false], vec![false], vec![true]]
    );
    assert_eq!(total.bit.get("rx").unwrap(), &vec![vec![true, true]]);
    assert_eq!(total.bit.len(), 2);
    assert_eq!(total.float.len(), 0);
    assert_eq!(total.complex.len(), 0);
}

#[test]
fn test_merge_results_of_nothing() {
    let total = merge_results(vec![]);
    assert_eq!(total.bit.len(), 0);
    assert_eq!(total.float.len(), 0);
    assert_eq!(total.complex.len(), 0);
}

#[test]
fn test_registers_merge_all_kinds() {
    let mut first = Registers::new();
    first.float.insert("f".to_string(), vec![vec![1.5f64.to_bits()]]);
    first.complex.insert("c".to_string(), vec![]);
    let mut second = Registers::new();
    second.float.insert("f".to_string(), vec![vec![2.5f64.to_bits()]]);
    second.complex.insert("d".to_string(), vec![vec![(0, 1)]]);
    second.bit.insert("ro".to_string(), vec![]);
    first.merge(second);
    assert_eq!(first.float.get("f").unwrap(), &vec![vec![1.5f64.to_bits()], vec![2.5f64.to_bits()]]);
    assert_eq!(first.complex.get("c").unwrap(), &Vec::<Vec<(u64, u64)>>::new());
    assert_eq!(first.complex.get("d").unwrap(), &vec![vec![(0, 1)]]);
    assert!(first.bit.contains_key("ro"));
}

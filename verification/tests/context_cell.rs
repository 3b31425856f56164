use with_context::WithContext;

#[derive(Clone, Debug, PartialEq, Eq)]
struct Cfg {
    enabled: bool,
    label: String,
}

#[test]
fn fresh_cell_is_uninitialized() {
    let cell: WithContext<Cfg> = WithContext::new();
    // Read or write access here is the use-before-init error: the cell is
    // still empty, which is exactly what `is_initialized` reports.
    assert!(!cell.is_initialized());
}

#[test]
fn literal_declaration_starts_empty() {
    let cell: WithContext<u32> = WithContext { context: None };
    assert!(!cell.is_initialized());
    assert!(cell.context.is_none());
}

#[test]
fn init_then_read_returns_stored_value() {
    let mut cell: WithContext<Cfg> = WithContext::new();
    cell.initialize(Cfg { enabled: true, label: String::from("a") });
    assert!(cell.is_initialized());
    let r: &Cfg = cell.get();
    assert_eq!(*r, Cfg { enabled: true, label: String::from("a") });
}

#[test]
fn write_is_visible_to_later_reads() {
    let mut cell: WithContext<Cfg> = WithContext::new();
    cell.initialize(Cfg { enabled: true, label: String::from("a") });
    let m: &mut Cfg = cell.get_mut();
    m.label = String::from("b");
    let r: &Cfg = cell.get();
    assert_eq!(*r, Cfg { enabled: true, label: String::from("b") });
    // A second read, and a write access used only to look, observe the same.
    assert_eq!(cell.get().label, "b");
    assert_eq!(cell.get_mut().label, "b");
}

#[test]
fn reinit_overwrites_without_error() {
    let mut cell: WithContext<Cfg> = WithContext::new();
    cell.initialize(Cfg { enabled: true, label: String::from("a") });
    cell.initialize(Cfg { enabled: false, label: String::from("c") });
    let r: &Cfg = cell.get();
    assert_eq!(*r, Cfg { enabled: false, label: String::from("c") });
}

#[test]
fn cell_never_returns_to_empty() {
    let mut cell: WithContext<u32> = WithContext::new();
    cell.initialize(1);
    assert!(cell.is_initialized());
    let _: &u32 = cell.get();
    assert!(cell.is_initialized());
    *cell.get_mut() = 2;
    assert!(cell.is_initialized());
    cell.initialize(3);
    assert!(cell.is_initialized());
    assert_eq!(*cell.get(), 3);
}

#[test]
fn write_reference_points_at_stored_value() {
    let mut cell: WithContext<u32> = WithContext::new();
    cell.initialize(41);
    // The write reference hands out the same logical value a read sees ...
    assert_eq!(*cell.get_mut(), 41);
    // ... and mutation through it lands in the single shared slot.
    *cell.get_mut() += 1;
    assert_eq!(*cell.get(), 42);
}

#[test]
fn whole_value_replacement_through_write_access() {
    let mut cell: WithContext<Vec<u32>> = WithContext::new();
    cell.initialize(vec![1, 2, 3]);
    let m: &mut Vec<u32> = cell.get_mut();
    *m = vec![9];
    assert_eq!(*cell.get(), vec![9]);
}

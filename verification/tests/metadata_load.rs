use liquid_scan::metadata_load::{after_load_step, first_load_step, LoadNext, LoadStep};

#[test]
fn load_steps_follow_one_another() {
    assert_eq!(first_load_step(), LoadStep::Head);
    assert!(matches!(
        after_load_step(LoadStep::Head, "a", Ok(())),
        LoadNext::Perform(LoadStep::Footer)
    ));
    assert!(matches!(
        after_load_step(LoadStep::Footer, "a", Ok(())),
        LoadNext::Perform(LoadStep::Schema)
    ));
    assert!(matches!(after_load_step(LoadStep::Schema, "a", Ok(())), LoadNext::Loaded));
}

#[test]
fn a_message_names_the_step_the_file_and_the_cause() {
    let expected = [
        (LoadStep::Head, "object-store head data/a.parquet: NYI: type"),
        (LoadStep::Footer, "load parquet metadata data/a.parquet: NYI: type"),
        (LoadStep::Schema, "parquet_to_arrow_schema data/a.parquet: NYI: type"),
    ];
    for (step, text) in expected {
        match after_load_step(step, "data/a.parquet", Err("NYI: type".to_string())) {
            LoadNext::Failed(message) => assert_eq!(message, text),
            _ => panic!("{:?} goes on", step),
        }
    }
}

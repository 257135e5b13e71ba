use kderive::args::Args;

#[test]
fn args_defaults_for_missing_values() {
    let args = Args::from_matches(None, None, None, None, None);
    assert_eq!(args.input_file, "");
    assert_eq!(args.output_file, "");
    assert_eq!(args.num_children, 0);
    assert!(!args.new_mnemonic);
    assert!(!args.short_word_count);
}

#[test]
fn args_keep_given_values() {
    let args = Args::from_matches(
        Some("seed.txt".to_string()),
        Some("out.txt".to_string()),
        Some(7),
        Some(true),
        Some(true),
    );
    assert_eq!(args.input_file, "seed.txt");
    assert_eq!(args.output_file, "out.txt");
    assert_eq!(args.num_children, 7);
    assert!(args.new_mnemonic);
    assert!(args.short_word_count);
}

#[test]
fn requested_word_count_follows_the_flags() {
    let mut args = Args::from_matches(None, Some("out.txt".to_string()), None, Some(true), None);
    assert_eq!(args.requested_word_count(), Some(24));
    args.short_word_count = true;
    assert_eq!(args.requested_word_count(), Some(12));
    args.new_mnemonic = false;
    assert_eq!(args.requested_word_count(), None);
    args.short_word_count = false;
    assert_eq!(args.requested_word_count(), None);
}

use frascii::cli::log_directive;

#[test]
fn directives_scale_with_verbosity_and_never_go_blanket() {
    for verbose in 0..4 {
        let directive = log_directive(verbose);
        assert!(
            directive.starts_with("frascii="),
            "{verbose} -v: {directive}"
        );
        assert!(
            directive.split(',').all(|d| d.contains('=')),
            "{verbose} -v: {directive}"
        );
    }
    assert_ne!(log_directive(0), log_directive(1));
    assert_eq!(log_directive(2), log_directive(9));
}

#[test]
fn each_verbosity_names_its_level() {
    assert_eq!(log_directive(0), "frascii=info,frascii_tui=info");
    assert_eq!(log_directive(1), "frascii=debug,frascii_tui=debug");
    assert_eq!(
        log_directive(2),
        "frascii=trace,frascii_tui=trace,frascii_core=trace"
    );
    assert_eq!(log_directive(u8::MAX), log_directive(2));
}

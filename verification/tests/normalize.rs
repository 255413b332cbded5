use sanscript::normalize::normalize;

fn chars(s: &str) -> Vec<char> {
    s.chars().collect()
}

fn text(v: &Vec<char>) -> String {
    v.iter().collect()
}

#[test]
fn escaped_marker_is_never_a_live_delimiter() {
    // A lone escaped opening marker followed by ordinary letters: the marker
    // is deleted, and nothing is removed as a block.
    let out = normalize(&chars("\\{#namaste"));
    assert_eq!(text(&out), "namaste");
}

#[test]
fn escape_pass_runs_before_block_pass() {
    // The backslash disarms the first `##`; what remains has no complete
    // block, so the trailing delimiter stays.
    let out = normalize(&chars("\\##a##"));
    assert_eq!(text(&out), "a##");
}

#[test]
fn removes_hash_block() {
    let out = normalize(&chars("x ##note## y"));
    assert_eq!(text(&out), "x  y");
}

#[test]
fn removes_brace_block() {
    let out = normalize(&chars("x {#note#} y"));
    assert_eq!(text(&out), "x  y");
}

#[test]
fn blocks_match_shortest_span() {
    let out = normalize(&chars("##a## b ##c##"));
    assert_eq!(text(&out), " b ");
}

#[test]
fn unterminated_block_is_kept() {
    let out = normalize(&chars("##abc"));
    assert_eq!(text(&out), "##abc");
}

#[test]
fn block_cannot_span_a_newline() {
    let out = normalize(&chars("##a\nb##"));
    assert_eq!(text(&out), "##a\nb##");
}

#[test]
fn adjacent_delimiters_form_an_empty_block() {
    let out = normalize(&chars("####"));
    assert_eq!(text(&out), "");
}

#[test]
fn opening_run_absorbs_stray_hash() {
    let out = normalize(&chars("###a###"));
    assert_eq!(text(&out), "#");
}

#[test]
fn second_pass_changes_nothing_here() {
    let once = normalize(&chars("x ##y## z"));
    let twice = normalize(&once);
    assert_eq!(text(&once), "x  z");
    assert_eq!(text(&twice), text(&once));
}

#[test]
fn one_pass_can_leave_a_complete_block() {
    // Removing the brace block brings the surrounding stray hashes together,
    // so a single pass leaves a complete `##...##` behind.
    let out = normalize(&chars("#{#a#}#xx##"));
    assert_eq!(text(&out), "##xx##");
}

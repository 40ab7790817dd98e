use opcode_web::resolver::{resolution_candidates, select_resolved};

#[test]
fn candidates_are_ordered_bundled_first() {
    let c = resolution_candidates("agent", "/home/u");
    assert_eq!(
        c,
        vec![
            "src-tauri/binaries/agent-code-x86_64-unknown-linux-gnu",
            "agent",
            "agent-code",
            "/usr/local/bin/agent",
            "/usr/bin/agent",
            "/opt/homebrew/bin/agent",
            "/home/u/.local/bin/agent",
        ]
    );
}

#[test]
fn selects_first_available_candidate() {
    let c = resolution_candidates("agent", "/home/u");
    let mut avail = vec![false; c.len()];
    avail[3] = true;
    avail[5] = true;
    assert_eq!(select_resolved(c, &avail).unwrap(), "/usr/local/bin/agent");
}

#[test]
fn no_candidate_available_is_a_resolution_error() {
    let c = resolution_candidates("agent", "/home/u");
    let avail = vec![false; c.len()];
    assert_eq!(
        select_resolved(c, &avail).err().unwrap(),
        "Executable not found in bundled location or system paths"
    );
}

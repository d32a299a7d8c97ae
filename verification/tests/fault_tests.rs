use netbridge::fault::{CauseChain, FaultKind};

#[test]
fn chain_keeps_root_and_order() {
    let chain = CauseChain::root(FaultKind::Call, "root went wrong".to_string())
        .context("while doing the step".to_string())
        .context("while serving the request".to_string());
    assert_eq!(chain.root_cause(), "root went wrong");
    assert!(matches!(chain.kind(), FaultKind::Call));
    let rendered = chain.render();
    assert_eq!(
        rendered,
        vec![
            "while serving the request".to_string(),
            "while doing the step".to_string(),
            "root went wrong".to_string(),
        ]
    );
}

#[test]
fn single_frame_chain_renders_itself() {
    let chain = CauseChain::root(FaultKind::Transport, "daemon gone".to_string());
    assert_eq!(chain.render(), vec!["daemon gone".to_string()]);
    assert_eq!(chain.root_cause(), "daemon gone");
}

#[test]
fn context_preserves_kind() {
    let chain = CauseChain::root(FaultKind::Bridge, "no value arrived".to_string())
        .context("submitting".to_string());
    assert!(matches!(chain.kind(), FaultKind::Bridge));
}

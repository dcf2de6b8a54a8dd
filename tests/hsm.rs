use ic_crypto::hsm::{HostNotice, Hsm, HsmAction, HsmSession};

fn drive(mut session: HsmSession, fail_operation: bool) -> Vec<HsmAction> {
    let mut actions = Vec::new();
    let mut last_failed = false;
    loop {
        let action = session.step(last_failed);
        actions.push(action);
        last_failed = match action {
            HsmAction::ReadPublicKey | HsmAction::SignMessage => fail_operation,
            _ => false,
        };
        if session.is_finished() {
            return actions;
        }
        assert!(actions.len() < 20);
    }
}

fn count(actions: &[HsmAction], a: HsmAction) -> usize {
    actions.iter().filter(|x| **x == a).count()
}

#[test]
fn read_public_key_success_pairs_attach_and_detach() {
    let actions = drive(Hsm.read_public_key_session(), false);
    assert_eq!(
        actions,
        vec![
            HsmAction::NotifyHost(HostNotice::StartingRegistration),
            HsmAction::NotifyHost(HostNotice::AttachingHsm),
            HsmAction::AttachHsm,
            HsmAction::ReadPublicKey,
            HsmAction::DetachHsm,
            HsmAction::Finish { succeeded: true },
        ]
    );
}

#[test]
fn read_public_key_failure_still_detaches() {
    let actions = drive(Hsm.read_public_key_session(), true);
    assert_eq!(count(&actions, HsmAction::AttachHsm), 1);
    assert_eq!(count(&actions, HsmAction::DetachHsm), 1);
    assert_eq!(actions.last(), Some(&HsmAction::Finish { succeeded: false }));
}

#[test]
fn signing_success_and_failure_pair_attach_and_detach() {
    let ok = drive(Hsm.sign_session(), false);
    assert_eq!(
        ok,
        vec![
            HsmAction::NotifyHost(HostNotice::AttachingHsm),
            HsmAction::AttachHsm,
            HsmAction::NotifyHost(HostNotice::SendingRequest),
            HsmAction::SignMessage,
            HsmAction::DetachHsm,
            HsmAction::Finish { succeeded: true },
        ]
    );
    let failed = drive(Hsm.sign_session(), true);
    assert_eq!(count(&failed, HsmAction::AttachHsm), count(&failed, HsmAction::DetachHsm));
    assert_eq!(failed.last(), Some(&HsmAction::Finish { succeeded: false }));
}

#[test]
fn finished_session_stays_finished() {
    let mut s = Hsm.sign_session();
    for _ in 0..6 {
        s.step(false);
    }
    assert!(s.is_finished());
    assert_eq!(s.step(true), HsmAction::Finish { succeeded: true });
    assert!(s.is_finished());
}

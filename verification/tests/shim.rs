use clspv_sys::shim::{
    assemble_output, validate, Action, CompileRequest, Event, Shim, ShimError,
};

fn request(source: &[u8], options: &[u8]) -> CompileRequest {
    CompileRequest { source: source.to_vec(), options: options.to_vec() }
}

#[test]
fn full_run_forwards_native_failure_code() {
    let req = request(b"bla bla bla", b"");
    let (s, a) = Shim::new(&req);
    assert_eq!(a, Some(Action::AllocResult));
    let (s, a) = s.on_event(Event::AllocDone);
    assert_eq!(a, Some(Action::InvokeCompile));
    let (s, a) = s.on_event(Event::CompileReturned(-1));
    assert_eq!(a, Some(Action::TakeOutput));
    let (s, a) = s.on_event(Event::OutputTaken(Vec::new()));
    assert_eq!(a, Some(Action::TakeLog));
    let (s, a) = s.on_event(Event::LogTaken(b"no kernel found".to_vec()));
    assert_eq!(a, Some(Action::FreeResult));
    let (s, a) = s.on_event(Event::FreeDone);
    assert_eq!(a, None);
    assert!(s.is_complete());
    match s.into_result() {
        Ok(out) => {
            assert_eq!(out.ret_code, -1);
            assert!(out.output.is_empty());
            assert_eq!(out.log, "no kernel found");
        }
        Err(_) => panic!("a full run with a decodable log must succeed"),
    }
}

#[test]
fn output_words_and_log_forwarded() {
    let req = request(b"kernel void k() {}", b"-O0");
    let (s, _) = Shim::new(&req);
    let (s, _) = s.on_event(Event::AllocDone);
    let (s, _) = s.on_event(Event::CompileReturned(0));
    let words = vec![0x07230203u32, 0x00010000, 42];
    let (s, _) = s.on_event(Event::OutputTaken(words.clone()));
    let (s, _) = s.on_event(Event::LogTaken(Vec::new()));
    let (s, _) = s.on_event(Event::FreeDone);
    match s.into_result() {
        Ok(out) => {
            assert_eq!(out.ret_code, 0);
            assert_eq!(out.output, words);
            assert_eq!(out.output.len(), 3);
            assert_eq!(out.log, "");
        }
        Err(_) => panic!("a full run with an empty log must succeed"),
    }
}

#[test]
fn terminator_in_source_rejected_before_alloc() {
    let req = request(b"kernel\0void", b"");
    let (s, a) = Shim::new(&req);
    assert_eq!(a, None);
    assert!(s.is_complete());
    match s.into_result() {
        Ok(_) => panic!("a request with an embedded terminator must fail"),
        Err(e) => assert_eq!(e, ShimError::InteriorTerminator),
    }
}

#[test]
fn terminator_in_options_rejected_before_alloc() {
    let req = request(b"kernel void k() {}", b"-O0\0-g");
    let (s, a) = Shim::new(&req);
    assert_eq!(a, None);
    assert!(s.is_complete());
    match s.into_result() {
        Ok(_) => panic!("a request with an embedded terminator must fail"),
        Err(e) => assert_eq!(e, ShimError::InteriorTerminator),
    }
}

#[test]
fn invalid_log_text_fails_after_free() {
    let req = request(b"kernel void k() {}", b"");
    let (s, _) = Shim::new(&req);
    let (s, _) = s.on_event(Event::AllocDone);
    let (s, _) = s.on_event(Event::CompileReturned(0));
    let (s, _) = s.on_event(Event::OutputTaken(vec![1, 2]));
    // An invalid byte sequence for a diagnostic log.
    let (s, a) = s.on_event(Event::LogTaken(vec![0xC3, 0x28]));
    // The release directive was still issued before the failure surfaces.
    assert_eq!(a, Some(Action::FreeResult));
    let (s, _) = s.on_event(Event::FreeDone);
    match s.into_result() {
        Ok(_) => panic!("an undecodable log must fail"),
        Err(e) => assert_eq!(e, ShimError::InvalidLogText),
    }
}

#[test]
fn validate_accepts_terminator_free_requests() {
    assert!(validate(&request(b"bla bla bla", b"")).is_ok());
    assert!(validate(&request(b"", b"")).is_ok());
    assert_eq!(
        validate(&request(b"a\0b", b"")),
        Err(ShimError::InteriorTerminator)
    );
    assert_eq!(
        validate(&request(b"ab", b"\0")),
        Err(ShimError::InteriorTerminator)
    );
}

#[test]
fn assemble_output_decodes_log() {
    match assemble_output(7, vec![9], b"hello".to_vec()) {
        Ok(out) => {
            assert_eq!(out.ret_code, 7);
            assert_eq!(out.output, vec![9]);
            assert_eq!(out.log, "hello");
        }
        Err(_) => panic!("valid text must decode"),
    }
    match assemble_output(0, Vec::new(), vec![0xFF, 0xFE]) {
        Ok(_) => panic!("invalid text must not decode"),
        Err(e) => assert_eq!(e, ShimError::InvalidLogText),
    }
}

#[test]
fn expects_guards_the_protocol() {
    let req = request(b"x", b"");
    let (s, _) = Shim::new(&req);
    assert!(s.expects(&Event::AllocDone));
    assert!(!s.expects(&Event::FreeDone));
    assert!(!s.expects(&Event::CompileReturned(0)));
    let (s, _) = s.on_event(Event::AllocDone);
    assert!(s.expects(&Event::CompileReturned(-3)));
    assert!(!s.expects(&Event::AllocDone));
}

use ollama_controls_api::gateway::{
    answer, answer_empty, bind_address, inspected_model, set_models_path, ApiError,
    ModelsPathEvent, ModelsPathStep,
};

#[test]
fn a_value_is_passed_on() {
    assert_eq!(answer(Ok(Ok(7))).unwrap(), 7);
    assert_eq!(answer_empty(Ok(Ok(7))).unwrap(), 204);
}

#[test]
fn an_error_of_ollama_is_a_bad_gateway() {
    let e = answer::<u8>(Ok(Err("model not found".to_owned()))).unwrap_err();
    assert_eq!((e.status, e.message.as_str()), (502, "model not found"));
    let e = answer_empty::<u8>(Ok(Err("model not found".to_owned()))).unwrap_err();
    assert_eq!((e.status, e.message.as_str()), (502, "model not found"));
}

#[test]
fn a_lost_worker_is_an_internal_error() {
    let e = answer::<u8>(Err("panicked".to_owned())).unwrap_err();
    assert_eq!((e.status, e.message.as_str()), (500, "panicked"));
    let e = answer_empty::<u8>(Err("panicked".to_owned())).unwrap_err();
    assert_eq!((e.status, e.message.as_str()), (500, "panicked"));
}

#[test]
fn errors_hold_what_they_are_made_of() {
    let e = ApiError::new(404, "gone".to_owned());
    assert_eq!((e.status, e.message.as_str()), (404, "gone"));
}

#[test]
fn the_address_has_a_default() {
    assert_eq!(bind_address(None), "127.0.0.1:3000");
    assert_eq!(bind_address(Some("0.0.0.0:80".to_owned())), "0.0.0.0:80");
    assert_eq!(bind_address(Some(String::new())), "");
}

#[test]
fn an_error_goes_out_as_one_field() {
    let reply = ApiError::new(502, "gone".to_owned()).into_response();
    assert_eq!(reply.status, 502);
    assert_eq!(reply.field, "error");
    assert_eq!(reply.text, "gone");
}

#[test]
fn a_model_is_inspected_by_its_name() {
    let (name, second, third, fourth) = inspected_model("llama3".to_owned());
    assert_eq!(name, "llama3");
    assert_eq!((second, third, fourth), Default::default());
}

#[test]
fn the_models_path_is_read_after_it_was_set() {
    match set_models_path::<u8>(ModelsPathEvent::Start("/models".to_owned())) {
        ModelsPathStep::Write(path) => assert_eq!(path, "/models"),
        other => panic!("{other:?}"),
    }
    assert!(matches!(
        set_models_path::<u8>(ModelsPathEvent::Written(Ok(()))),
        ModelsPathStep::ReadInfo
    ));
    match set_models_path::<u8>(ModelsPathEvent::Written(Err("no".to_owned()))) {
        ModelsPathStep::Done(r) => assert_eq!(r, Err("no".to_owned())),
        other => panic!("{other:?}"),
    }
    match set_models_path(ModelsPathEvent::Info(7u8)) {
        ModelsPathStep::Done(r) => assert_eq!(r, Ok(7)),
        other => panic!("{other:?}"),
    }
}

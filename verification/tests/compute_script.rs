use hstack_agent::agent::action::{AgentAction, WorkingMemoryDelta};
use hstack_agent::compute::tool::{ComputeOutcome, LightComputeTool};
use hstack_agent::json::Json;
use hstack_agent::workspace::delta::WorkspaceDelta;
use hstack_agent::agent::error::AgentError;
use hstack_agent::compute::script::{translate_js_body_to_monty, translate_js_expression};

fn provider(m: &str) -> Result<String, AgentError> {
    Err(AgentError::Provider(m.to_string()))
}

#[test]
fn object_literal_of_helpers_becomes_a_python_dict() {
    let code = "return { mean: hstack.mean(input.values), med: hstack.median(input.values), picked: hstack.pick(input.obj, ['a', 'c']) };";
    assert_eq!(
        translate_js_body_to_monty(code),
        Ok("def __hstack_light_compute_main():\n    return {\"mean\": hstack_mean(input[\"values\"]), \"med\": hstack_median(input[\"values\"]), \"picked\": hstack_pick(input[\"obj\"], ['a', 'c'])}\n__hstack_light_compute_main()\n".to_string())
    );
}

#[test]
fn busy_loop_becomes_a_python_loop() {
    assert_eq!(translate_js_body_to_monty("  while (true) {}  "), Ok("while True:\n        pass".to_string()));
    assert_eq!(translate_js_body_to_monty("while(true){}"), Ok("while True:\n        pass".to_string()));
}

#[test]
fn assignments_and_blank_lines() {
    let code = "const x = input.a;\n\n  let y = x * 2;\r\nreturn y + 1";
    assert_eq!(
        translate_js_body_to_monty(code),
        Ok("def __hstack_light_compute_main():\n    x = input[\"a\"]\n    y = x * 2\n    return y + 1\n__hstack_light_compute_main()\n".to_string())
    );
}

#[test]
fn literals_are_spelled_as_python_spells_them() {
    assert_eq!(translate_js_expression(" [true, false, null, nullable]; "), Ok("[True, False, None, nullable]".to_string()));
    assert_eq!(translate_js_expression("{ }"), Ok("{}".to_string()));
    assert_eq!(translate_js_expression("{'k': 1, \"q\": 2}"), Ok("{'k': 1, \"q\": 2}".to_string()));
}

#[test]
fn nested_objects_are_rebuilt() {
    assert_eq!(
        translate_js_expression("{a: {b: input.x.y}, c: 'd:e'}"),
        Ok("{\"a\": {\"b\": input[\"x\"][\"y\"]}, \"c\": 'd:e'}".to_string())
    );
}

#[test]
fn untranslatable_bodies_are_refused() {
    assert_eq!(
        translate_js_body_to_monty("return {a}"),
        provider("light_compute could not translate object literal entry: a")
    );
    assert_eq!(translate_js_body_to_monty("const x"), provider("light_compute could not translate const assignment"));
    assert_eq!(translate_js_body_to_monty("let x;"), provider("light_compute could not translate let assignment"));
    assert_eq!(translate_js_body_to_monty("  \n \n "), provider("light_compute requires non-empty 'code'"));
    assert_eq!(
        translate_js_body_to_monty("const a = 1\nreturn {b}\nconst c"),
        provider("light_compute could not translate object literal entry: b")
    );
}

#[test]
fn a_timed_out_run_records_its_metrics_and_summary() {
    let tool = LightComputeTool::new();
    match tool.run_action(ComputeOutcome::TimedOut, Json::Null, 1200) {
        AgentAction::Compound(v) => {
            assert_eq!(v.len(), 2);
            match (&v[0], &v[1]) {
                (
                    AgentAction::UpdateWorkingMemory(WorkingMemoryDelta::AddTechnicalNoise(k, e)),
                    AgentAction::UpdateWorkspace(WorkspaceDelta::RecordCompute { summary, payload }),
                ) => {
                    assert_eq!(k, "light_compute");
                    let text = r#"{"error":{"message":"light_compute exceeded timeout","type":"timeout"},"metrics":{"elapsed_ms":1200,"timeout_ms":1000},"ok":false}"#;
                    assert_eq!(e.to_text(), text);
                    assert_eq!(payload, text);
                    assert_eq!(summary, "light_compute timeout");
                },
                other => panic!("unexpected {:?}", other),
            }
        },
        other => panic!("unexpected {:?}", other),
    }
}

#[test]
fn a_finished_run_records_its_result_and_an_oversized_one_fails() {
    let tool = LightComputeTool::new();
    let result = Json::Integer(42);
    let event = tool.run_event(&ComputeOutcome::Finished, result, 7);
    assert_eq!(
        event.to_text(),
        r#"{"metrics":{"elapsed_ms":7,"max_heap_bytes":10485760,"max_output_bytes":64000,"timeout_ms":1000},"ok":true,"result":42}"#
    );
    match tool.settle_run(ComputeOutcome::Finished, "42") {
        ComputeOutcome::Finished => {},
        other => panic!("unexpected {:?}", other),
    }
    let big = "x".repeat(64001);
    let settled = tool.settle_run(ComputeOutcome::Finished, &big);
    match &settled {
        ComputeOutcome::Failed { message } => {
            assert_eq!(message, "Sandbox error: light_compute output exceeds 64000 bytes")
        },
        other => panic!("unexpected {:?}", other),
    }
    let failed = tool.run_event(&settled, Json::Null, 0);
    assert_eq!(
        failed.to_text(),
        r#"{"error":{"message":"Sandbox error: light_compute output exceeds 64000 bytes","type":"output_too_large"},"limits":{"max_code_bytes":20000,"max_heap_bytes":10485760,"max_input_bytes":64000,"max_output_bytes":64000,"timeout_ms":1000},"ok":false}"#
    );
    match tool.run_action(ComputeOutcome::OutOfMemory, Json::Null, 3) {
        AgentAction::Compound(v) => match &v[1] {
            AgentAction::UpdateWorkspace(WorkspaceDelta::RecordCompute { summary, .. }) => assert_eq!(summary, "light_compute oom"),
            other => panic!("unexpected {:?}", other),
        },
        other => panic!("unexpected {:?}", other),
    }
}

#[test]
fn strings_are_escaped_as_json_writes_them() {
    let j = Json::Str("a\"b\\c\nd\te\u{1}\u{1f}é".to_string());
    assert_eq!(j.to_text(), "\"a\\\"b\\\\c\\nd\\te\\u0001\\u001fé\"");
}

#[test]
fn the_v8_script_parses_the_input_and_returns_json() {
    assert_eq!(
        hstack_agent::compute::script::v8_script("return input.a;", "{\"a\":1}"),
        "(() => {\n  const input = JSON.parse(\"{\\\"a\\\":1}\");\n  const __result = (() => {\nreturn input.a;\n  })();\n  return JSON.stringify(__result === undefined ? null : __result);\n})()"
    );
}

use mcp_weather_api::catalog::WeatherAPIRouter;
use mcp_weather_api::invocation::{
    check_response, weather_request, BodyProgress, CallStep, ResponseBody, Scheme, StreamRead,
};
use mcp_weather_api::model::{
    CallToolResult, Content, PromptError, PromptMessageContent, PromptMessageRole,
    ResourceContents, ResourceError, Role, ToolError, Value,
};

const INSTRUCTIONS: &str = "Fetches the current weather \n        for a given location. \n        Call the get_weather tool and pass a json {'location'='input your location here'}, \n        as input. Location can be in different formats:\n        * Latitude and Longitude (Decimal degree) e.g: location=48.8567,2.3508\n        * city name e.g.: location=Paris\n        * US zip e.g.: location=10001\n        * UK postcode e.g: location=SW1\n        * Canada postal code e.g: location=G2J\n        * metar:<metar code> e.g: location=metar:EGLL\n        * iata:<3 digit airport code> e.g: location=iata:DXB\n        * auto:ip IP lookup e.g: location=auto:ip\n        * IP address (IPv4 and IPv6 supported) e.g: location=100.0.0.1\n        * By ID returned from Search API. e.g: location=id:2801268";

fn args(json: &str) -> Value {
    Value { json: json.to_string() }
}

fn text_of(result: &CallToolResult) -> String {
    assert_eq!(result.content.len(), 1);
    match &result.content[0] {
        Content::Text(t) => t.text.clone(),
    }
}

fn location_of(step: CallStep) -> String {
    match step {
        CallStep::ResolveSecret { secret_name, location } => {
            assert_eq!(secret_name, "WEATHER_API_KEY");
            location
        }
        CallStep::Finished(r) => panic!("the call ended early: {:?}", r),
    }
}

fn finished(step: CallStep) -> Result<CallToolResult, ToolError> {
    match step {
        CallStep::Finished(r) => r,
        CallStep::ResolveSecret { .. } => panic!("the call went on to the secret"),
    }
}

/// Runs a whole call against a stub host.
fn run_call(
    arguments: &str,
    secret: Result<String, String>,
    status: Result<u16, String>,
    reads: Vec<StreamRead>,
) -> Result<CallToolResult, ToolError> {
    let location = match WeatherAPIRouter::begin_call_tool("get_weather".to_string(), args(arguments)) {
        CallStep::Finished(r) => return r,
        CallStep::ResolveSecret { location, .. } => location,
    };
    weather_request(&location, secret)?;
    let mut body = check_response(status)?;
    for read in reads {
        match body.accept(read) {
            BodyProgress::Continue => {}
            BodyProgress::Complete => return body.into_tool_result(),
            BodyProgress::Failed(e) => return Err(e),
        }
    }
    panic!("the stub stream never closed")
}

#[test]
fn router_identity() {
    assert_eq!(WeatherAPIRouter::name(), "Weather API Router".to_string());
    assert_eq!(WeatherAPIRouter::instructions(), INSTRUCTIONS.to_string());
}

#[test]
fn capabilities_advertise_tools_only() {
    let caps = WeatherAPIRouter::capabilities();
    assert!(caps.prompts.is_none());
    assert!(caps.resources.is_none());
    assert_eq!(caps.tools.unwrap().list_changed, Some(true));
}

#[test]
fn list_tools_gives_weather_tool() {
    let tools = WeatherAPIRouter::list_tools();
    assert_eq!(tools.len(), 1);
    assert_eq!(tools[0].name, "get_weather");
    assert!(tools[0].description.starts_with("Fetches, retrieves or gets the weather"));
    let left: serde_json::Value =
        serde_json::from_str(&tools[0].input_schema.json).expect("failed to parse left JSON");
    let right: serde_json::Value = serde_json::from_str(
        r#"{
        "type": "object",
        "properties": {
            "location": {
                "type": "string"
            }
        },
        "required": [
            "location"
        ]
    }"#,
    )
    .expect("failed to parse right JSON");
    assert_eq!(left, right);
    let required = left["required"].as_array().unwrap();
    assert_eq!(required.len(), 1);
    assert_eq!(required[0], "location");
    assert_eq!(left["properties"]["location"]["type"], "string");
    assert!(tools[0].output_schema.as_ref().unwrap().json.contains("\"title\": \"Forecast\""));
}

#[test]
fn unknown_tool_is_not_found() {
    for name in ["get_forecast", "", "GET_WEATHER", "get_weather "] {
        let step = WeatherAPIRouter::begin_call_tool(name.to_string(), args(r#"{"location":"Paris"}"#));
        match finished(step) {
            Err(ToolError::NotFound(m)) => {
                assert!(m.contains(name));
                assert_eq!(m, format!("Tool {} not found", name));
            }
            other => panic!("unexpected: {:?}", other),
        }
    }
}

#[test]
fn empty_location_is_soft_error() {
    let step = WeatherAPIRouter::begin_call_tool("get_weather".to_string(), args(r#"{"location": ""}"#));
    let result = finished(step).expect("a result");
    assert_eq!(result.is_error, Some(true));
    assert_eq!(text_of(&result), "you need to provide a location");
}

#[test]
fn malformed_arguments_are_invalid_parameters() {
    let step = WeatherAPIRouter::begin_call_tool("get_weather".to_string(), args("{location"));
    assert_eq!(
        finished(step),
        Err(ToolError::InvalidParameters("Could not read the json arguments: {location".to_string()))
    );
}

#[test]
fn missing_or_non_string_location_is_invalid_parameters() {
    for json in [r#"{}"#, r#"{"location": 42}"#, r#"["location"]"#, r#"{"place":"Paris"}"#] {
        let step = WeatherAPIRouter::begin_call_tool("get_weather".to_string(), args(json));
        match finished(step) {
            Err(ToolError::InvalidParameters(m)) => {
                assert_eq!(m, "The location argument is missing or is not a string")
            }
            other => panic!("unexpected for {}: {:?}", json, other),
        }
    }
}

#[test]
fn location_goes_on_to_secret() {
    let step = WeatherAPIRouter::begin_call_tool("get_weather".to_string(), args(r#"{"location":"New York"}"#));
    assert_eq!(location_of(step), "New York");
}

#[test]
fn request_has_key_and_encoded_location() {
    let request = weather_request("New York", Ok("abc123".to_string())).unwrap();
    assert_eq!(request.scheme, Scheme::Https);
    assert_eq!(request.authority, "api.weatherapi.com");
    assert_eq!(request.path_with_query, "/v1/current.json?key=abc123&q=New%20York");
}

#[test]
fn request_encodes_reserved_and_non_ascii() {
    let request = weather_request("São Paulo&x=1/~a-b_c.d", Ok("k".to_string())).unwrap();
    assert_eq!(
        request.path_with_query,
        "/v1/current.json?key=k&q=S%C3%A3o%20Paulo%26x%3D1%2F~a-b_c.d"
    );
}

#[test]
fn location_round_trips_through_query() {
    for location in ["New York", "48.8567,2.3508", "São Paulo & co=1", "iata:DXB", "東京", "100%"] {
        let request = weather_request(location, Ok("secret".to_string())).unwrap();
        let path = request.path_with_query;
        let value = &path[path.rfind('=').unwrap() + 1..];
        let decoded = urlencoding::decode(value).unwrap();
        assert_eq!(decoded, location);
    }
}

#[test]
fn secret_failure_is_execution_error() {
    match weather_request("Paris", Err("no such secret".to_string())) {
        Err(ToolError::ExecutionError(m)) => {
            assert_eq!(m, "Could not read the WEATHER_API_KEY secret: no such secret")
        }
        other => panic!("unexpected: {:?}", other),
    }
}

#[test]
fn success_passes_body_through() {
    let result = run_call(
        r#"{"location":"London"}"#,
        Ok("abc".to_string()),
        Ok(200),
        vec![StreamRead::Bytes(br#"{"message":"sunny, 15C"}"#.to_vec()), StreamRead::Closed],
    )
    .expect("a result");
    assert_eq!(result.is_error, Some(false));
    let text = text_of(&result);
    assert!(text.contains("sunny, 15C"));
    assert_eq!(text, r#"{"message":"sunny, 15C"}"#);
}

#[test]
fn body_is_reassembled_from_chunks() {
    let mut body = check_response(Ok(200)).unwrap();
    assert!(body.as_bytes().is_empty());
    let long = vec![b'a'; 1024];
    assert!(matches!(body.accept(StreamRead::Bytes(long.clone())), BodyProgress::Continue));
    assert!(matches!(body.accept(StreamRead::Bytes(Vec::new())), BodyProgress::Continue));
    assert!(matches!(body.accept(StreamRead::Bytes(b"New York".to_vec())), BodyProgress::Continue));
    assert!(matches!(body.accept(StreamRead::Closed), BodyProgress::Complete));
    assert_eq!(body.as_bytes().len(), 1032);
    let result = body.into_tool_result().unwrap();
    let text = text_of(&result);
    assert_eq!(text.len(), 1032);
    assert!(text.ends_with("aNew York"));
}

#[test]
fn status_500_is_execution_error() {
    match check_response(Ok(500)) {
        Err(ToolError::ExecutionError(m)) => {
            assert!(m.contains("500"));
            assert_eq!(m, "HTTP request failed with status code 500");
        }
        other => panic!("unexpected: {:?}", other),
    }
}

#[test]
fn other_statuses_are_execution_errors() {
    for (status, text) in [(0u16, "0"), (7, "7"), (404, "404"), (201, "201"), (65535, "65535")] {
        match check_response(Ok(status)) {
            Err(ToolError::ExecutionError(m)) => {
                assert_eq!(m, format!("HTTP request failed with status code {}", text))
            }
            other => panic!("unexpected: {:?}", other),
        }
    }
}

#[test]
fn transport_error_is_execution_error() {
    match check_response(Err("connection refused".to_string())) {
        Err(ToolError::ExecutionError(m)) => {
            assert!(m.contains("connection refused"));
            assert_eq!(m, "Got error when trying to fetch the weather: connection refused");
        }
        other => panic!("unexpected: {:?}", other),
    }
}

#[test]
fn stream_failure_is_execution_error() {
    let result = run_call(
        r#"{"location":"Oslo"}"#,
        Ok("abc".to_string()),
        Ok(200),
        vec![StreamRead::Bytes(b"{".to_vec()), StreamRead::Failed("reset".to_string())],
    );
    assert_eq!(
        result,
        Err(ToolError::ExecutionError("Could not read the weather response: reset".to_string()))
    );
}

#[test]
fn invalid_utf8_body_is_execution_error() {
    let mut body = ResponseBody::new();
    assert!(matches!(body.accept(StreamRead::Bytes(vec![0x66, 0xff, 0x6f])), BodyProgress::Continue));
    assert_eq!(
        body.into_tool_result(),
        Err(ToolError::ExecutionError("The weather response is not valid UTF-8".to_string()))
    );
}

#[test]
fn resources_catalog() {
    let resources = WeatherAPIRouter::list_resources();
    assert_eq!(resources.len(), 1);
    assert_eq!(resources[0].name, "WeatherDataResource");
    assert_eq!(resources[0].uri, "weather-data-uri");
    assert_eq!(resources[0].mime_type, "application/json");
}

#[test]
fn read_known_resource() {
    let result = WeatherAPIRouter::read_resource("weather-data-uri".to_string()).unwrap();
    assert!(!result.contents.is_empty());
    match &result.contents[0] {
        ResourceContents::Text(t) => {
            assert_eq!(t.uri, "weather-data-uri");
            assert_eq!(t.mime_type.as_deref(), Some("application/json"));
            assert_eq!(t.text, "{\"weather\": \"sunny\", \"temperature\":\"15 degrees\"}");
        }
    }
}

#[test]
fn read_unknown_resource_is_not_found() {
    assert_eq!(
        WeatherAPIRouter::read_resource("other-uri".to_string()),
        Err(ResourceError::NotFound("Resource at other-uri not found".to_string()))
    );
}

#[test]
fn prompts_catalog() {
    let prompts = WeatherAPIRouter::list_prompts();
    assert_eq!(prompts.len(), 1);
    assert_eq!(prompts[0].name, "GetWeather");
    let arguments = prompts[0].arguments.as_ref().unwrap();
    assert_eq!(arguments.len(), 1);
    assert_eq!(arguments[0].name, "location");
    assert_eq!(arguments[0].required, Some(true));
}

#[test]
fn get_weather_prompt() {
    let result = WeatherAPIRouter::get_prompt("GetWeather".to_string()).unwrap();
    assert_eq!(result.messages.len(), 1);
    let message = &result.messages[0];
    assert_eq!(message.role, PromptMessageRole::User);
    match &message.content {
        PromptMessageContent::Text(t) => {
            assert_eq!(t.text, "Please provide a location to get the weather.".to_string());
            let annotations = t.annotations.as_ref().unwrap();
            assert_eq!(annotations.audience.as_ref().unwrap(), &vec![Role::User]);
            let priority = annotations.priority.unwrap();
            assert_eq!(priority.thousandths as f64 / 1000.0, 1.0);
            assert_eq!(annotations.timestamp.as_deref(), Some("now"));
        }
    }
}

#[test]
fn unknown_prompt_is_not_found() {
    assert_eq!(
        WeatherAPIRouter::get_prompt("getweather".to_string()),
        Err(PromptError::NotFound("Prompt getweather not found".to_string()))
    );
}

#[test]
fn secrets_catalog() {
    let secrets = WeatherAPIRouter::list_secrets();
    assert_eq!(secrets.len(), 1);
    assert_eq!(secrets[0].name, "WEATHER_API_KEY");
    assert_eq!(secrets[0].description, "the api key for weatherapi.com");
    assert!(secrets[0].required);
}

#[test]
fn lookup_outcomes_decide_the_step() {
    let arguments = args("not json");
    assert_eq!(
        finished(WeatherAPIRouter::continue_with_location(&arguments, None)),
        Err(ToolError::InvalidParameters("Could not read the json arguments: not json".to_string()))
    );
    assert!(matches!(
        finished(WeatherAPIRouter::continue_with_location(&arguments, Some(None))),
        Err(ToolError::InvalidParameters(_))
    ));
    let soft = finished(WeatherAPIRouter::continue_with_location(&arguments, Some(Some(String::new()))));
    assert_eq!(text_of(&soft.unwrap()), "you need to provide a location");
    let step = WeatherAPIRouter::continue_with_location(&arguments, Some(Some("Lima".to_string())));
    assert_eq!(location_of(step), "Lima");
}

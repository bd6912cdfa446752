//! The router's fixed answers: its identity, capabilities and catalogs.
use vstd::prelude::*;

use crate::model::{
    Annotations, GetPromptResult, McpResource, Priority, Prompt, PromptArgument, PromptError,
    PromptMessage, PromptMessageContent, PromptMessageRole, ReadResourceResult, ResourceContents,
    ResourceError, Role, SecretsDescription, ServerCapabilities, TextContent, TextResourceContents,
    Tool, ToolsCapability, Value,
};

verus! {

/// The router.
#[derive(Clone, Copy, Debug, PartialEq, Eq, Structural)]
pub struct WeatherAPIRouter;

pub const ROUTER_NAME: &'static str = "Weather API Router";

/// How to call the tool, and the forms that a location can take.
pub const INSTRUCTIONS: &'static str = "Fetches the current weather 
        for a given location. 
        Call the get_weather tool and pass a json {'location'='input your location here'}, 
        as input. Location can be in different formats:
        * Latitude and Longitude (Decimal degree) e.g: location=48.8567,2.3508
        * city name e.g.: location=Paris
        * US zip e.g.: location=10001
        * UK postcode e.g: location=SW1
        * Canada postal code e.g: location=G2J
        * metar:<metar code> e.g: location=metar:EGLL
        * iata:<3 digit airport code> e.g: location=iata:DXB
        * auto:ip IP lookup e.g: location=auto:ip
        * IP address (IPv4 and IPv6 supported) e.g: location=100.0.0.1
        * By ID returned from Search API. e.g: location=id:2801268";

/// The name of the one tool.
pub const TOOL_NAME: &'static str = "get_weather";

pub const TOOL_DESCRIPTION: &'static str = "Fetches, retrieves or gets the weather prediction for a 
                specific location. 
                Use the location parameter. Location can be in different formats:
                * Latitude and Longitude (Decimal degree) e.g: location=48.8567,2.3508
                * city name e.g.: location=Paris
                * US zip e.g.: location=10001
                * UK postcode e.g: location=SW1
                * Canada postal code e.g: location=G2J
                * metar:<metar code> e.g: location=metar:EGLL
                * iata:<3 digit airport code> e.g: location=iata:DXB
                * auto:ip IP lookup e.g: location=auto:ip
                * IP address (IPv4 and IPv6 supported) e.g: location=100.0.0.1
                * By ID returned from Search API. e.g: location=id:2801268";

/// The JSON schema of the tool's input: an object with the string member
/// `location`, which is required.
pub const INPUT_SCHEMA: &'static str = r#"{
                        "type": "object",
                        "properties": {
                            "location": {
                                "type": "string"
                            }
                        },
                        "required": [
                            "location"
                        ]
                    }"#;

/// The JSON schema of a forecast.
pub const OUTPUT_SCHEMA: &'static str = r#"{
                        "title": "Forecast",
                        "type": "object",
                        "properties": {
                            "forecastday": {
                                "title": "Forecastday",
                                "anyOf": [
                                    {
                                        "type": "array",
                                        "items": {
                                            "$ref": "\#/$defs/ForecastForecastdayInner"
                                        }
                                    },
                                    { "type": "null" }
                                ]
                            }
                        },
                        "required": ["forecastday"],
                        "$defs": {
                            "ForecastForecastdayInner": {
                                "type": "object",
                                "title": "ForecastForecastdayInner",
                                "properties": {
                                    "date": { "type": ["string", "null"] },
                                    "date_epoch": { "type": ["integer", "null"] },
                                    "day": {
                                        "anyOf": [
                                            { "$ref": "\#/$defs/ForecastForecastdayInnerDay" },
                                            { "type": "null" }
                                        ]
                                    },
                                    "astro": {
                                        "anyOf": [
                                            { "$ref": "\#/$defs/ForecastForecastdayInnerAstro" },
                                            { "type": "null" }
                                        ]
                                    },
                                    "hour": {
                                        "anyOf": [
                                            {
                                                "type": "array",
                                                "items": { "$ref": "\#/$defs/ForecastForecastdayInnerHourInner" }
                                            },
                                            { "type": "null" }
                                        ]
                                    }
                                },
                                "required": ["date", "date_epoch", "day", "astro", "hour"]
                            },
                            "ForecastForecastdayInnerDay": {
                                "type": "object",
                                "title": "ForecastForecastdayInnerDay",
                                "properties": {
                                    "maxtemp_c": { "type": ["number", "null"] },
                                    "mintemp_c": { "type": ["number", "null"] },
                                    "uv": { "type": ["integer", "null"] }
                                }
                            },
                            "ForecastForecastdayInnerAstro": {
                                "type": "object",
                                "properties": {
                                    "sunrise": { "type": ["string", "null"] },
                                    "sunset": { "type": ["string", "null"] }
                                }
                            },
                            "ForecastForecastdayInnerHourInner": {
                                "type": "object",
                                "properties": {
                                    "time": { "type": ["string", "null"] },
                                    "temp_c": { "type": ["number", "null"] },
                                    "uv": { "type": ["integer", "null"] }
                                }
                            }
                        }
                    }"#;

pub const RESOURCE_URI: &'static str = "weather-data-uri";

pub const RESOURCE_NAME: &'static str = "WeatherDataResource";

pub const RESOURCE_DESCRIPTION: &'static str = "This router provides weather predictions. Call the WeatherFetcher tool and pass a location, e.g. London, as input.";

pub const JSON_MIME_TYPE: &'static str = "application/json";

/// What the resource holds.
pub const RESOURCE_TEXT: &'static str = "{\"weather\": \"sunny\", \"temperature\":\"15 degrees\"}";

pub const PROMPT_NAME: &'static str = "GetWeather";

pub const PROMPT_DESCRIPTION: &'static str = "Prompt to get weather information";

pub const PROMPT_ARGUMENT_NAME: &'static str = "location";

pub const PROMPT_ARGUMENT_DESCRIPTION: &'static str = "Location to get weather for";

pub const PROMPT_RESULT_DESCRIPTION: &'static str = "Prompt to fetch weather data";

pub const PROMPT_TEXT: &'static str = "Please provide a location to get the weather.";

pub const PROMPT_TIMESTAMP: &'static str = "now";

/// The name of the secret that holds the weather service's API key.
pub const WEATHER_API_KEY: &'static str = "WEATHER_API_KEY";

pub const WEATHER_API_KEY_DESCRIPTION: &'static str = "the api key for weatherapi.com";

/// `t` is the weather tool, with its description and both schemas.
pub open spec fn is_weather_tool(t: Tool) -> bool {
    &&& t.name@ == TOOL_NAME@
    &&& t.description@ == TOOL_DESCRIPTION@
    &&& t.input_schema.json@ == INPUT_SCHEMA@
    &&& t.output_schema is Some
    &&& t.output_schema->Some_0.json@ == OUTPUT_SCHEMA@
}

/// `r` is the weather data resource.
pub open spec fn is_weather_resource(r: McpResource) -> bool {
    &&& r.uri@ == RESOURCE_URI@
    &&& r.name@ == RESOURCE_NAME@
    &&& r.description is Some
    &&& r.description->Some_0@ == RESOURCE_DESCRIPTION@
    &&& r.mime_type@ == JSON_MIME_TYPE@
    &&& r.annotations is None
}

/// `c` is the text of the weather data resource, read at `uri`.
pub open spec fn is_weather_data(c: ResourceContents, uri: Seq<char>) -> bool {
    match c {
        ResourceContents::Text(t) => {
            &&& t.uri@ == uri
            &&& t.mime_type is Some
            &&& t.mime_type->Some_0@ == JSON_MIME_TYPE@
            &&& t.text@ == RESOURCE_TEXT@
        },
    }
}

pub open spec fn resource_not_found_message(uri: Seq<char>) -> Seq<char> {
    "Resource at "@ + uri + " not found"@
}

/// `p` is the weather prompt, which takes a required location.
pub open spec fn is_weather_prompt(p: Prompt) -> bool {
    &&& p.name@ == PROMPT_NAME@
    &&& p.description is Some
    &&& p.description->Some_0@ == PROMPT_DESCRIPTION@
    &&& p.arguments is Some
    &&& p.arguments->Some_0@.len() == 1
    &&& p.arguments->Some_0@[0].name@ == PROMPT_ARGUMENT_NAME@
    &&& p.arguments->Some_0@[0].description is Some
    &&& p.arguments->Some_0@[0].description->Some_0@ == PROMPT_ARGUMENT_DESCRIPTION@
    &&& p.arguments->Some_0@[0].required == Some(true)
}

/// `m` is the weather prompt's message: from the user, with its text,
/// meant for the user, at the highest priority, stamped "now".
pub open spec fn is_weather_prompt_message(m: PromptMessage) -> bool {
    &&& m.role == PromptMessageRole::User
    &&& match m.content {
        PromptMessageContent::Text(t) => {
            &&& t.text@ == PROMPT_TEXT@
            &&& t.annotations is Some
            &&& t.annotations->Some_0.audience is Some
            &&& t.annotations->Some_0.audience->Some_0@ == seq![Role::User]
            &&& t.annotations->Some_0.priority == Some(Priority { thousandths: 1000 })
            &&& t.annotations->Some_0.timestamp is Some
            &&& t.annotations->Some_0.timestamp->Some_0@ == PROMPT_TIMESTAMP@
        },
    }
}

pub open spec fn prompt_not_found_message(name: Seq<char>) -> Seq<char> {
    "Prompt "@ + name + " not found"@
}

impl WeatherAPIRouter {
    pub fn name() -> (r: String)
        ensures
            r@ == ROUTER_NAME@,
    {
        String::from_str(ROUTER_NAME)
    }

    pub fn instructions() -> (r: String)
        ensures
            r@ == INSTRUCTIONS@,
    {
        String::from_str(INSTRUCTIONS)
    }

    /// Only the tool catalog is advertised, as one that can change.
    pub fn capabilities() -> (r: ServerCapabilities)
        ensures
            r == (ServerCapabilities {
                prompts: None,
                resources: None,
                tools: Some(ToolsCapability { list_changed: Some(true) }),
            }),
    {
        ServerCapabilities {
            prompts: None,
            resources: None,
            tools: Some(ToolsCapability { list_changed: Some(true) }),
        }
    }

    /// The one tool, `get_weather`.
    pub fn list_tools() -> (r: Vec<Tool>)
        ensures
            r@.len() == 1,
            is_weather_tool(r@[0]),
    {
        let tool = Tool {
            name: String::from_str(TOOL_NAME),
            description: String::from_str(TOOL_DESCRIPTION),
            input_schema: Value { json: String::from_str(INPUT_SCHEMA) },
            output_schema: Some(Value { json: String::from_str(OUTPUT_SCHEMA) }),
        };
        vec![tool]
    }

    /// The one resource, the weather data.
    pub fn list_resources() -> (r: Vec<McpResource>)
        ensures
            r@.len() == 1,
            is_weather_resource(r@[0]),
    {
        let resource = McpResource {
            uri: String::from_str(RESOURCE_URI),
            name: String::from_str(RESOURCE_NAME),
            description: Some(String::from_str(RESOURCE_DESCRIPTION)),
            mime_type: String::from_str(JSON_MIME_TYPE),
            annotations: None,
        };
        vec![resource]
    }

    /// The weather data for its own uri; not found for any other.
    pub fn read_resource(uri: String) -> (r: Result<ReadResourceResult, ResourceError>)
        ensures
            uri@ == RESOURCE_URI@ ==> r is Ok && r->Ok_0.contents@.len() == 1 && is_weather_data(
                r->Ok_0.contents@[0],
                uri@,
            ),
            uri@ != RESOURCE_URI@ ==> r is Err && match r->Err_0 {
                ResourceError::NotFound(m) => m@ == resource_not_found_message(uri@),
            },
    {
        if uri == String::from_str(RESOURCE_URI) {
            let contents = ResourceContents::Text(
                TextResourceContents {
                    uri,
                    mime_type: Some(String::from_str(JSON_MIME_TYPE)),
                    text: String::from_str(RESOURCE_TEXT),
                },
            );
            Ok(ReadResourceResult { contents: vec![contents] })
        } else {
            let mut message = String::from_str("Resource at ");
            message.append(uri.as_str());
            message.append(" not found");
            Err(ResourceError::NotFound(message))
        }
    }

    /// The one prompt, `GetWeather`.
    pub fn list_prompts() -> (r: Vec<Prompt>)
        ensures
            r@.len() == 1,
            is_weather_prompt(r@[0]),
    {
        let argument = PromptArgument {
            name: String::from_str(PROMPT_ARGUMENT_NAME),
            description: Some(String::from_str(PROMPT_ARGUMENT_DESCRIPTION)),
            required: Some(true),
        };
        let prompt = Prompt {
            name: String::from_str(PROMPT_NAME),
            description: Some(String::from_str(PROMPT_DESCRIPTION)),
            arguments: Some(vec![argument]),
        };
        vec![prompt]
    }

    /// The weather prompt's one message for its own name; not found for any
    /// other.
    pub fn get_prompt(prompt_name: String) -> (r: Result<GetPromptResult, PromptError>)
        ensures
            prompt_name@ == PROMPT_NAME@ ==> r is Ok && r->Ok_0.description is Some
                && r->Ok_0.description->Some_0@ == PROMPT_RESULT_DESCRIPTION@
                && r->Ok_0.messages@.len() == 1 && is_weather_prompt_message(
                r->Ok_0.messages@[0],
            ),
            prompt_name@ != PROMPT_NAME@ ==> r is Err && match r->Err_0 {
                PromptError::NotFound(m) => m@ == prompt_not_found_message(prompt_name@),
            },
    {
        if prompt_name == String::from_str(PROMPT_NAME) {
            let audience = vec![Role::User];
            assert(audience@ =~= seq![Role::User]);
            let annotations = Annotations {
                audience: Some(audience),
                priority: Some(Priority { thousandths: 1000 }),
                timestamp: Some(String::from_str(PROMPT_TIMESTAMP)),
            };
            let message = PromptMessage {
                role: PromptMessageRole::User,
                content: PromptMessageContent::Text(
                    TextContent { text: String::from_str(PROMPT_TEXT), annotations: Some(annotations) },
                ),
            };
            Ok(
                GetPromptResult {
                    description: Some(String::from_str(PROMPT_RESULT_DESCRIPTION)),
                    messages: vec![message],
                },
            )
        } else {
            let mut message = String::from_str("Prompt ");
            message.append(prompt_name.as_str());
            message.append(" not found");
            Err(PromptError::NotFound(message))
        }
    }

    /// The one secret that the router needs: the weather service's API key.
    pub fn list_secrets() -> (r: Vec<SecretsDescription>)
        ensures
            r@.len() == 1,
            r@[0].name@ == WEATHER_API_KEY@,
            r@[0].description@ == WEATHER_API_KEY_DESCRIPTION@,
            r@[0].required,
    {
        let secret = SecretsDescription {
            name: String::from_str(WEATHER_API_KEY),
            description: String::from_str(WEATHER_API_KEY_DESCRIPTION),
            required: true,
        };
        vec![secret]
    }
}

} // verus!

//! The tool registry: the fixed set of tool names the gateway serves,
//! the read-only classification, and each tool's input-schema
//! descriptor.

use vstd::prelude::*;
use crate::config::Config;
use crate::json::{Json, JsonV, jm, jm_arr, jm_obj, lemma_jm_arr_index, lemma_jm_obj_index};
use crate::text::{str_eq, views_of, u64_to_string, join_strings, append_str};

verus! {

/// The registered tool names, in registration order.
pub open spec fn registry_names() -> Seq<Seq<char>> {
    seq![
        "jira_get_issue"@,
        "jira_search"@,
        "jira_create_issue"@,
        "jira_update_issue"@,
        "jira_add_comment"@,
        "jira_update_comment"@,
        "jira_transition_issue"@,
        "jira_get_transitions"@,
        "confluence_search"@,
        "confluence_get_page"@,
        "confluence_get_page_children"@,
        "confluence_get_comments"@,
        "confluence_create_page"@,
        "confluence_update_page"@,
    ]
}

/// Whether a tool of this name is registered.
pub open spec fn spec_registered(name: Seq<char>) -> bool {
    registry_names().contains(name)
}

/// The registered names, as strings.
pub fn registry_name_list() -> (r: Vec<String>)
    ensures
        views_of(r@) == registry_names(),
{
    let r: Vec<String> = vec![
        "jira_get_issue".to_owned(),
        "jira_search".to_owned(),
        "jira_create_issue".to_owned(),
        "jira_update_issue".to_owned(),
        "jira_add_comment".to_owned(),
        "jira_update_comment".to_owned(),
        "jira_transition_issue".to_owned(),
        "jira_get_transitions".to_owned(),
        "confluence_search".to_owned(),
        "confluence_get_page".to_owned(),
        "confluence_get_page_children".to_owned(),
        "confluence_get_comments".to_owned(),
        "confluence_create_page".to_owned(),
        "confluence_update_page".to_owned(),
    ];
    proof {
        assert(views_of(r@) =~= registry_names());
    }
    r
}

/// Whether a tool of this name is registered.
pub fn is_registered(name: &str) -> (r: bool)
    ensures
        r == spec_registered(name@),
{
    let names = registry_name_list();
    crate::text::vec_contains_str(&names, name)
}

/// The read-class tools: side-effect-free operations whose responses
/// are optimized.  An explicit allow-list, never inferred from names.
pub open spec fn read_tool_names() -> Seq<Seq<char>> {
    seq![
        "jira_get_issue"@,
        "jira_search"@,
        "jira_get_transitions"@,
        "confluence_search"@,
        "confluence_get_page"@,
        "confluence_get_page_children"@,
        "confluence_get_comments"@,
    ]
}

/// Whether the named tool is read-class.
pub open spec fn spec_is_read_tool(name: Seq<char>) -> bool {
    read_tool_names().contains(name)
}

/// Whether the named tool is read-class.
pub fn is_read_tool(name: &str) -> (r: bool)
    ensures
        r == spec_is_read_tool(name@),
{
    let names: Vec<String> = vec![
        "jira_get_issue".to_owned(),
        "jira_search".to_owned(),
        "jira_get_transitions".to_owned(),
        "confluence_search".to_owned(),
        "confluence_get_page".to_owned(),
        "confluence_get_page_children".to_owned(),
        "confluence_get_comments".to_owned(),
    ];
    proof {
        assert(views_of(names@) =~= read_tool_names());
    }
    crate::text::vec_contains_str(&names, name)
}

/// One property of a tool's input schema.
pub struct Property {
    /// A type name, or an array of type names for a union.
    pub property_type: Json,
    pub description: Option<String>,
    pub default: Option<Json>,
    pub enum_values: Option<Vec<Json>>,
}

/// A tool's input schema: an object type with named properties, some
/// required.
pub struct ToolInputSchema {
    pub schema_type: String,
    pub properties: Vec<(String, Property)>,
    pub required: Vec<String>,
}

/// A tool descriptor.
pub struct Tool {
    pub name: String,
    pub description: String,
    pub input_schema: ToolInputSchema,
}

/// The descriptor list returned by a listing request.
pub struct ListToolsResult {
    pub tools: Vec<Tool>,
}

/// Whether the schema names property `k`.
pub open spec fn has_prop(s: ToolInputSchema, k: Seq<char>) -> bool {
    exists|j: int| 0 <= j < s.properties@.len() && (#[trigger] s.properties@[j].0@) == k
}

/// The descriptor invariant: an object schema with at least one
/// property, a nonempty description, and every required name among
/// the properties.
pub open spec fn schema_wf(t: Tool) -> bool {
    &&& t.input_schema.schema_type@ == "object"@
    &&& t.input_schema.properties@.len() > 0
    &&& t.description@.len() > 0
    &&& forall|i: int|
        0 <= i < t.input_schema.required@.len() ==> has_prop(
            t.input_schema,
            #[trigger] t.input_schema.required@[i]@,
        )
}

/// The model of a property descriptor.
#[verifier::ext_equal]
pub struct PropertyV {
    pub property_type: JsonV,
    pub description: Option<Seq<char>>,
    pub default: Option<JsonV>,
    pub enum_values: Option<Seq<JsonV>>,
}

/// The model of an input schema.
#[verifier::ext_equal]
pub struct SchemaV {
    pub schema_type: Seq<char>,
    pub properties: Seq<(Seq<char>, PropertyV)>,
    pub required: Seq<Seq<char>>,
}

/// The model of a tool descriptor.
#[verifier::ext_equal]
pub struct ToolV {
    pub name: Seq<char>,
    pub description: Seq<char>,
    pub input_schema: SchemaV,
}

/// The model of a property value.
pub open spec fn prop_model(p: Property) -> PropertyV {
    PropertyV {
        property_type: jm(p.property_type),
        description: match p.description {
            Option::Some(d) => Option::Some(d@),
            Option::None => Option::None,
        },
        default: match p.default {
            Option::Some(v) => Option::Some(jm(v)),
            Option::None => Option::None,
        },
        enum_values: match p.enum_values {
            Option::Some(vs) => Option::Some(jm_arr(vs@)),
            Option::None => Option::None,
        },
    }
}

/// The models of a property list.
pub open spec fn props_model(s: Seq<(String, Property)>) -> Seq<(Seq<char>, PropertyV)> {
    s.map_values(|p: (String, Property)| (p.0@, prop_model(p.1)))
}

/// The model of a tool descriptor value.
pub open spec fn tool_model(t: Tool) -> ToolV {
    ToolV {
        name: t.name@,
        description: t.description@,
        input_schema: SchemaV {
            schema_type: t.input_schema.schema_type@,
            properties: props_model(t.input_schema.properties@),
            required: views_of(t.input_schema.required@),
        },
    }
}

/// A string-typed property with a description.
pub open spec fn string_prop(description: Seq<char>) -> PropertyV {
    PropertyV {
        property_type: JsonV::Str("string"@),
        description: Option::Some(description),
        default: Option::None,
        enum_values: Option::None,
    }
}

/// A number-typed property with a description and a default.
pub open spec fn number_prop(description: Seq<char>, default: int) -> PropertyV {
    PropertyV {
        property_type: JsonV::Str("number"@),
        description: Option::Some(description),
        default: Option::Some(JsonV::Num(crate::text::int_str(default))),
        enum_values: Option::None,
    }
}

/// A property accepting either of two type names.
pub open spec fn union_prop(description: Seq<char>, first: Seq<char>, second: Seq<char>) -> PropertyV {
    PropertyV {
        property_type: JsonV::Arr(seq![JsonV::Str(first), JsonV::Str(second)]),
        description: Option::Some(description),
        default: Option::None,
        enum_values: Option::None,
    }
}

/// An object schema over the given properties and required names.
pub open spec fn object_schema(
    properties: Seq<(Seq<char>, PropertyV)>,
    required: Seq<Seq<char>>,
) -> SchemaV {
    SchemaV { schema_type: "object"@, properties, required }
}

/// The field list a search without caller-supplied fields resolves to.
pub open spec fn search_fields_list(config: &Config) -> Seq<Seq<char>> {
    crate::jira::field_filtering::resolve_spec(
        Option::None,
        crate::jira::field_filtering::opt_views(config.jira_search_default_fields),
        views_of(config.jira_search_custom_fields@),
    )
}

/// The help text of the search `fields` property: it embeds the count
/// and the names of the fields the configuration resolves to.
pub open spec fn search_fields_description(config: &Config) -> Seq<char> {
    "Optional: Array of field names to return. If not specified, returns "@ + crate::text::dec_str(
        search_fields_list(config).len(),
    ) + " default fields: "@ + crate::text::spec_join(search_fields_list(config), ", "@)
        + "\n\nTo minimize tokens, specify only the fields you need (e.g., [\"key\",\"summary\",\"status\",\"assignee\"])."@
}

/// The descriptor of each tool: a pure function of the name and the
/// field-resolver configuration.  An unknown name yields a placeholder
/// with an empty schema.
pub open spec fn tool_descriptor_spec(name: Seq<char>, config: &Config) -> ToolV {
    if name == "jira_get_issue"@ {
        ToolV {
            name,
            description: "Get Jira issue by key"@,
            input_schema: object_schema(
                seq![
                    ("issue_key"@, string_prop(
                        "Issue key (e.g., 'PROJECT-123'). Case-sensitive."@,
                    )),
                ],
                seq!["issue_key"@],
            ),
        }
    } else if name == "jira_search"@ {
        ToolV {
            name,
            description: "Search Jira issues using JQL"@,
            input_schema: object_schema(
                seq![
                    ("jql"@, string_prop(
                        "JQL query. Must include search condition before ORDER BY (e.g., 'project = KEY ORDER BY created DESC'). ORDER BY only works with orderable fields (dates, versions)."@,
                    )),
                    ("limit"@, number_prop("Maximum results (default: 20)"@, 20)),
                    ("fields"@, PropertyV {
                        property_type: JsonV::Str("array"@),
                        description: Option::Some(search_fields_description(config)),
                        default: Option::None,
                        enum_values: Option::None,
                    }),
                ],
                seq!["jql"@],
            ),
        }
    } else if name == "jira_create_issue"@ {
        ToolV {
            name,
            description: "Create Jira issue"@,
            input_schema: object_schema(
                seq![
                    ("project_key"@, string_prop("Project key"@)),
                    ("summary"@, string_prop("Issue summary"@)),
                    ("issue_type"@, string_prop(
                        "Issue type name (e.g., 'Task', 'Bug', 'Story')."@,
                    )),
                    ("description"@, union_prop(
                        "Issue description - accepts plain text (string, auto-converted to ADF) or ADF object"@,
                        "string"@,
                        "object"@,
                    )),
                ],
                seq!["project_key"@, "summary"@, "issue_type"@],
            ),
        }
    } else if name == "jira_update_issue"@ {
        ToolV {
            name,
            description: "Update Jira issue"@,
            input_schema: object_schema(
                seq![
                    ("issue_key"@, string_prop("Issue key"@)),
                    ("fields"@, PropertyV {
                        property_type: JsonV::Str("object"@),
                        description: Option::Some(
                            "Fields to update as JSON object (e.g., {\"summary\": \"New title\"}). Custom fields use 'customfield_*' format. The 'description' field accepts plain text (auto-converted to ADF) or ADF object."@,
                        ),
                        default: Option::None,
                        enum_values: Option::None,
                    }),
                ],
                seq!["issue_key"@, "fields"@],
            ),
        }
    } else if name == "jira_add_comment"@ {
        ToolV {
            name,
            description: "Add comment to Jira issue"@,
            input_schema: object_schema(
                seq![
                    ("issue_key"@, string_prop("Issue key"@)),
                    ("comment"@, union_prop(
                        "Comment text - accepts plain text (string, auto-converted to ADF) or ADF object"@,
                        "string"@,
                        "object"@,
                    )),
                ],
                seq!["issue_key"@, "comment"@],
            ),
        }
    } else if name == "jira_update_comment"@ {
        ToolV {
            name,
            description: "Update an existing comment on a Jira issue with rich text formatting (ADF)"@,
            input_schema: object_schema(
                seq![
                    ("issue_key"@, string_prop("Issue key (e.g., 'PROJ-123')"@)),
                    ("comment_id"@, string_prop(
                        "Comment ID to update (obtained from comment object's 'id' field)"@,
                    )),
                    ("body"@, union_prop(
                        "Comment body - accepts plain text (string, auto-converted to ADF) or ADF object"@,
                        "string"@,
                        "object"@,
                    )),
                ],
                seq!["issue_key"@, "comment_id"@, "body"@],
            ),
        }
    } else if name == "jira_transition_issue"@ {
        ToolV {
            name,
            description: "Transition Jira issue status"@,
            input_schema: object_schema(
                seq![
                    ("issue_key"@, string_prop("Issue key"@)),
                    ("transition_id"@, string_prop(
                        "Transition ID. Get available transition IDs using jira_get_transitions for the issue's current status."@,
                    )),
                ],
                seq!["issue_key"@, "transition_id"@],
            ),
        }
    } else if name == "jira_get_transitions"@ {
        ToolV {
            name,
            description: "Get Jira issue transitions"@,
            input_schema: object_schema(
                seq![("issue_key"@, string_prop("Issue key"@))],
                seq!["issue_key"@],
            ),
        }
    } else if name == "confluence_search"@ {
        ToolV {
            name,
            description: "Search Confluence using CQL"@,
            input_schema: object_schema(
                seq![
                    ("query"@, string_prop(
                        "CQL query. Format: field operator value (e.g., 'type=page AND space=\"SPACE\"'). Use text ~ \"keyword\" for text search."@,
                    )),
                    ("limit"@, number_prop("Max results"@, 10)),
                ],
                seq!["query"@],
            ),
        }
    } else if name == "confluence_get_page"@ {
        ToolV {
            name,
            description: "Get Confluence page by ID"@,
            input_schema: object_schema(
                seq![("page_id"@, string_prop("Page ID"@))],
                seq!["page_id"@],
            ),
        }
    } else if name == "confluence_get_page_children"@ {
        ToolV {
            name,
            description: "Get page child pages"@,
            input_schema: object_schema(
                seq![("page_id"@, string_prop("Page ID"@))],
                seq!["page_id"@],
            ),
        }
    } else if name == "confluence_get_comments"@ {
        ToolV {
            name,
            description: "Get page comments"@,
            input_schema: object_schema(
                seq![("page_id"@, string_prop("Page ID"@))],
                seq!["page_id"@],
            ),
        }
    } else if name == "confluence_create_page"@ {
        ToolV {
            name,
            description: "Create Confluence page"@,
            input_schema: object_schema(
                seq![
                    ("space_key"@, string_prop("Space key"@)),
                    ("title"@, string_prop("Page title"@)),
                    ("content"@, string_prop("Page content in HTML storage format."@)),
                    ("parent_id"@, string_prop("Parent page ID"@)),
                ],
                seq!["space_key"@, "title"@, "content"@],
            ),
        }
    } else if name == "confluence_update_page"@ {
        ToolV {
            name,
            description: "Update Confluence page"@,
            input_schema: object_schema(
                seq![
                    ("page_id"@, string_prop("Page ID"@)),
                    ("title"@, string_prop("Page title"@)),
                    ("content"@, string_prop("Page content in HTML storage format"@)),
                    ("version_number"@, number_prop(
                        "Version number (optional). Current version is automatically retrieved and incremented."@,
                        1,
                    )),
                ],
                seq!["page_id"@, "title"@, "content"@],
            ),
        }
    } else {
        ToolV {
            name,
            description: "Unknown tool"@,
            input_schema: object_schema(Seq::empty(), Seq::empty()),
        }
    }
}

fn create_string_prop(description: &str) -> (r: Property)
    ensures
        jm(r.property_type) == JsonV::Str("string"@),
        r.description matches Option::Some(d) && d@ == description@,
        r.default is None,
        r.enum_values is None,
{
    Property {
        property_type: Json::Str("string".to_owned()),
        description: Some(description.to_owned()),
        default: None,
        enum_values: None,
    }
}

fn create_number_prop(description: &str, default: i64) -> (r: Property)
    ensures
        jm(r.property_type) == JsonV::Str("number"@),
        r.description matches Option::Some(d) && d@ == description@,
        r.default matches Option::Some(v) && jm(v) == JsonV::Num(crate::text::int_str(default as int)),
        r.enum_values is None,
{
    Property {
        property_type: Json::Str("number".to_owned()),
        description: Some(description.to_owned()),
        default: Some(Json::Num(crate::text::i64_to_string(default))),
        enum_values: None,
    }
}

fn create_union_prop(description: &str, first: &str, second: &str) -> (r: Property)
    ensures
        jm(r.property_type) == JsonV::Arr(seq![JsonV::Str(first@), JsonV::Str(second@)]),
        r.description matches Option::Some(d) && d@ == description@,
        r.default is None,
        r.enum_values is None,
{
    let mut types: Vec<Json> = Vec::new();
    types.push(Json::Str(first.to_owned()));
    types.push(Json::Str(second.to_owned()));
    proof {
        lemma_jm_arr_index(types@);
        assert(jm_arr(types@) =~= seq![JsonV::Str(first@), JsonV::Str(second@)]);
    }
    Property {
        property_type: Json::Arr(types),
        description: Some(description.to_owned()),
        default: None,
        enum_values: None,
    }
}

fn mk_schema(properties: Vec<(String, Property)>, required: Vec<String>) -> (r: ToolInputSchema)
    ensures
        r.schema_type@ == "object"@,
        r.properties == properties,
        r.required == required,
{
    ToolInputSchema { schema_type: "object".to_owned(), properties, required }
}

/// The descriptor for the named tool.  The mapping is a pure function
/// of the name and the field-resolver configuration; an unknown name
/// yields a placeholder with an empty schema.
#[verifier::rlimit(100)]
pub fn tool_to_mcp_tool(name: &str, config: &Config) -> (r: Tool)
    ensures
        r.name@ == name@,
        spec_registered(name@) ==> schema_wf(r),
        tool_model(r) == tool_descriptor_spec(name@, config),
{
    if str_eq(name, "jira_get_issue") {
        let mut props: Vec<(String, Property)> = Vec::new();
        props.push((
            "issue_key".to_owned(),
            create_string_prop("Issue key (e.g., 'PROJECT-123'). Case-sensitive."),
        ));
        let required: Vec<String> = vec!["issue_key".to_owned()];
        let t = Tool {
            name: name.to_owned(),
            description: "Get Jira issue by key".to_owned(),
            input_schema: mk_schema(props, required),
        };
        proof {
            assert(t.input_schema.properties@[0].0@ == "issue_key"@);
            reveal_strlit("Get Jira issue by key");
            assert(t.description@.len() > 0);
            assert(schema_wf(t));
            assert(props_model(t.input_schema.properties@) =~~= tool_descriptor_spec(
                name@,
                config,
            ).input_schema.properties);
            assert(views_of(t.input_schema.required@) =~~= tool_descriptor_spec(
                name@,
                config,
            ).input_schema.required);
            assert(tool_model(t) =~~= tool_descriptor_spec(name@, config));
        }
        t
    } else if str_eq(name, "jira_search") {
        let resolved_fields = crate::jira::field_filtering::resolve_search_fields(None, config);
        let fields_count = u64_to_string(resolved_fields.len() as u64);
        let fields_list = join_strings(&resolved_fields, ", ");
        let mut fields_desc = String::new();
        append_str(
            &mut fields_desc,
            "Optional: Array of field names to return. If not specified, returns ",
        );
        append_str(&mut fields_desc, fields_count.as_str());
        append_str(&mut fields_desc, " default fields: ");
        append_str(&mut fields_desc, fields_list.as_str());
        append_str(
            &mut fields_desc,
            "\n\nTo minimize tokens, specify only the fields you need (e.g., [\"key\",\"summary\",\"status\",\"assignee\"]).",
        );
        let ghost fd = fields_desc@;
        proof {
            assert(views_of(resolved_fields@) == search_fields_list(config));
            assert(resolved_fields@.len() == search_fields_list(config).len());
            assert(fd =~= search_fields_description(config));
        }
        let mut props: Vec<(String, Property)> = Vec::new();
        props.push((
            "jql".to_owned(),
            create_string_prop(
                "JQL query. Must include search condition before ORDER BY (e.g., 'project = KEY ORDER BY created DESC'). ORDER BY only works with orderable fields (dates, versions).",
            ),
        ));
        props.push(("limit".to_owned(), create_number_prop("Maximum results (default: 20)", 20)));
        props.push((
            "fields".to_owned(),
            Property {
                property_type: Json::Str("array".to_owned()),
                description: Some(fields_desc),
                default: None,
                enum_values: None,
            },
        ));
        let required: Vec<String> = vec!["jql".to_owned()];
        let t = Tool {
            name: name.to_owned(),
            description: "Search Jira issues using JQL".to_owned(),
            input_schema: mk_schema(props, required),
        };
        proof {
            assert(t.input_schema.properties@[0].0@ == "jql"@);
            reveal_strlit("Search Jira issues using JQL");
            assert(t.description@.len() > 0);
            assert(schema_wf(t));
            assert(props_model(t.input_schema.properties@) =~~= tool_descriptor_spec(
                name@,
                config,
            ).input_schema.properties);
            assert(views_of(t.input_schema.required@) =~~= tool_descriptor_spec(
                name@,
                config,
            ).input_schema.required);
            assert(tool_model(t) =~~= tool_descriptor_spec(name@, config));
        }
        t
    } else if str_eq(name, "jira_create_issue") {
        let mut props: Vec<(String, Property)> = Vec::new();
        props.push(("project_key".to_owned(), create_string_prop("Project key")));
        props.push(("summary".to_owned(), create_string_prop("Issue summary")));
        props.push((
            "issue_type".to_owned(),
            create_string_prop("Issue type name (e.g., 'Task', 'Bug', 'Story')."),
        ));
        props.push((
            "description".to_owned(),
            create_union_prop(
                "Issue description - accepts plain text (string, auto-converted to ADF) or ADF object",
                "string",
                "object",
            ),
        ));
        let required: Vec<String> = vec![
            "project_key".to_owned(),
            "summary".to_owned(),
            "issue_type".to_owned(),
        ];
        let t = Tool {
            name: name.to_owned(),
            description: "Create Jira issue".to_owned(),
            input_schema: mk_schema(props, required),
        };
        proof {
            assert(t.input_schema.properties@[0].0@ == "project_key"@);
            assert(t.input_schema.properties@[1].0@ == "summary"@);
            assert(t.input_schema.properties@[2].0@ == "issue_type"@);
            reveal_strlit("Create Jira issue");
            assert(t.description@.len() > 0);
            assert(schema_wf(t));
            assert(props_model(t.input_schema.properties@) =~~= tool_descriptor_spec(
                name@,
                config,
            ).input_schema.properties);
            assert(views_of(t.input_schema.required@) =~~= tool_descriptor_spec(
                name@,
                config,
            ).input_schema.required);
            assert(tool_model(t) =~~= tool_descriptor_spec(name@, config));
        }
        t
    } else if str_eq(name, "jira_update_issue") {
        let mut props: Vec<(String, Property)> = Vec::new();
        props.push(("issue_key".to_owned(), create_string_prop("Issue key")));
        props.push((
            "fields".to_owned(),
            Property {
                property_type: Json::Str("object".to_owned()),
                description: Some(
                    "Fields to update as JSON object (e.g., {\"summary\": \"New title\"}). Custom fields use 'customfield_*' format. The 'description' field accepts plain text (auto-converted to ADF) or ADF object.".to_owned(),
                ),
                default: None,
                enum_values: None,
            },
        ));
        let required: Vec<String> = vec!["issue_key".to_owned(), "fields".to_owned()];
        let t = Tool {
            name: name.to_owned(),
            description: "Update Jira issue".to_owned(),
            input_schema: mk_schema(props, required),
        };
        proof {
            assert(t.input_schema.properties@[0].0@ == "issue_key"@);
            assert(t.input_schema.properties@[1].0@ == "fields"@);
            reveal_strlit("Update Jira issue");
            assert(t.description@.len() > 0);
            assert(schema_wf(t));
            assert(props_model(t.input_schema.properties@) =~~= tool_descriptor_spec(
                name@,
                config,
            ).input_schema.properties);
            assert(views_of(t.input_schema.required@) =~~= tool_descriptor_spec(
                name@,
                config,
            ).input_schema.required);
            assert(tool_model(t) =~~= tool_descriptor_spec(name@, config));
        }
        t
    } else if str_eq(name, "jira_add_comment") {
        let mut props: Vec<(String, Property)> = Vec::new();
        props.push(("issue_key".to_owned(), create_string_prop("Issue key")));
        props.push((
            "comment".to_owned(),
            create_union_prop(
                "Comment text - accepts plain text (string, auto-converted to ADF) or ADF object",
                "string",
                "object",
            ),
        ));
        let required: Vec<String> = vec!["issue_key".to_owned(), "comment".to_owned()];
        let t = Tool {
            name: name.to_owned(),
            description: "Add comment to Jira issue".to_owned(),
            input_schema: mk_schema(props, required),
        };
        proof {
            assert(t.input_schema.properties@[0].0@ == "issue_key"@);
            assert(t.input_schema.properties@[1].0@ == "comment"@);
            reveal_strlit("Add comment to Jira issue");
            assert(t.description@.len() > 0);
            assert(schema_wf(t));
            assert(props_model(t.input_schema.properties@) =~~= tool_descriptor_spec(
                name@,
                config,
            ).input_schema.properties);
            assert(views_of(t.input_schema.required@) =~~= tool_descriptor_spec(
                name@,
                config,
            ).input_schema.required);
            assert(tool_model(t) =~~= tool_descriptor_spec(name@, config));
        }
        t
    } else if str_eq(name, "jira_update_comment") {
        let mut props: Vec<(String, Property)> = Vec::new();
        props.push(("issue_key".to_owned(), create_string_prop("Issue key (e.g., 'PROJ-123')")));
        props.push((
            "comment_id".to_owned(),
            create_string_prop("Comment ID to update (obtained from comment object's 'id' field)"),
        ));
        props.push((
            "body".to_owned(),
            create_union_prop(
                "Comment body - accepts plain text (string, auto-converted to ADF) or ADF object",
                "string",
                "object",
            ),
        ));
        let required: Vec<String> = vec![
            "issue_key".to_owned(),
            "comment_id".to_owned(),
            "body".to_owned(),
        ];
        let t = Tool {
            name: name.to_owned(),
            description:
                "Update an existing comment on a Jira issue with rich text formatting (ADF)".to_owned(),
            input_schema: mk_schema(props, required),
        };
        proof {
            assert(t.input_schema.properties@[0].0@ == "issue_key"@);
            assert(t.input_schema.properties@[1].0@ == "comment_id"@);
            assert(t.input_schema.properties@[2].0@ == "body"@);
            reveal_strlit("Update an existing comment on a Jira issue with rich text formatting (ADF)");
            assert(t.description@.len() > 0);
            assert(schema_wf(t));
            assert(props_model(t.input_schema.properties@) =~~= tool_descriptor_spec(
                name@,
                config,
            ).input_schema.properties);
            assert(views_of(t.input_schema.required@) =~~= tool_descriptor_spec(
                name@,
                config,
            ).input_schema.required);
            assert(tool_model(t) =~~= tool_descriptor_spec(name@, config));
        }
        t
    } else if str_eq(name, "jira_transition_issue") {
        let mut props: Vec<(String, Property)> = Vec::new();
        props.push(("issue_key".to_owned(), create_string_prop("Issue key")));
        props.push((
            "transition_id".to_owned(),
            create_string_prop(
                "Transition ID. Get available transition IDs using jira_get_transitions for the issue's current status.",
            ),
        ));
        let required: Vec<String> = vec!["issue_key".to_owned(), "transition_id".to_owned()];
        let t = Tool {
            name: name.to_owned(),
            description: "Transition Jira issue status".to_owned(),
            input_schema: mk_schema(props, required),
        };
        proof {
            assert(t.input_schema.properties@[0].0@ == "issue_key"@);
            assert(t.input_schema.properties@[1].0@ == "transition_id"@);
            reveal_strlit("Transition Jira issue status");
            assert(t.description@.len() > 0);
            assert(schema_wf(t));
            assert(props_model(t.input_schema.properties@) =~~= tool_descriptor_spec(
                name@,
                config,
            ).input_schema.properties);
            assert(views_of(t.input_schema.required@) =~~= tool_descriptor_spec(
                name@,
                config,
            ).input_schema.required);
            assert(tool_model(t) =~~= tool_descriptor_spec(name@, config));
        }
        t
    } else if str_eq(name, "jira_get_transitions") {
        let mut props: Vec<(String, Property)> = Vec::new();
        props.push(("issue_key".to_owned(), create_string_prop("Issue key")));
        let required: Vec<String> = vec!["issue_key".to_owned()];
        let t = Tool {
            name: name.to_owned(),
            description: "Get Jira issue transitions".to_owned(),
            input_schema: mk_schema(props, required),
        };
        proof {
            assert(t.input_schema.properties@[0].0@ == "issue_key"@);
            reveal_strlit("Get Jira issue transitions");
            assert(t.description@.len() > 0);
            assert(schema_wf(t));
            assert(props_model(t.input_schema.properties@) =~~= tool_descriptor_spec(
                name@,
                config,
            ).input_schema.properties);
            assert(views_of(t.input_schema.required@) =~~= tool_descriptor_spec(
                name@,
                config,
            ).input_schema.required);
            assert(tool_model(t) =~~= tool_descriptor_spec(name@, config));
        }
        t
    } else if str_eq(name, "confluence_search") {
        let mut props: Vec<(String, Property)> = Vec::new();
        props.push((
            "query".to_owned(),
            create_string_prop(
                "CQL query. Format: field operator value (e.g., 'type=page AND space=\"SPACE\"'). Use text ~ \"keyword\" for text search.",
            ),
        ));
        props.push(("limit".to_owned(), create_number_prop("Max results", 10)));
        let required: Vec<String> = vec!["query".to_owned()];
        let t = Tool {
            name: name.to_owned(),
            description: "Search Confluence using CQL".to_owned(),
            input_schema: mk_schema(props, required),
        };
        proof {
            assert(t.input_schema.properties@[0].0@ == "query"@);
            reveal_strlit("Search Confluence using CQL");
            assert(t.description@.len() > 0);
            assert(schema_wf(t));
            assert(props_model(t.input_schema.properties@) =~~= tool_descriptor_spec(
                name@,
                config,
            ).input_schema.properties);
            assert(views_of(t.input_schema.required@) =~~= tool_descriptor_spec(
                name@,
                config,
            ).input_schema.required);
            assert(tool_model(t) =~~= tool_descriptor_spec(name@, config));
        }
        t
    } else if str_eq(name, "confluence_get_page") {
        let mut props: Vec<(String, Property)> = Vec::new();
        props.push(("page_id".to_owned(), create_string_prop("Page ID")));
        let required: Vec<String> = vec!["page_id".to_owned()];
        let t = Tool {
            name: name.to_owned(),
            description: "Get Confluence page by ID".to_owned(),
            input_schema: mk_schema(props, required),
        };
        proof {
            assert(t.input_schema.properties@[0].0@ == "page_id"@);
            reveal_strlit("Get Confluence page by ID");
            assert(t.description@.len() > 0);
            assert(schema_wf(t));
            assert(props_model(t.input_schema.properties@) =~~= tool_descriptor_spec(
                name@,
                config,
            ).input_schema.properties);
            assert(views_of(t.input_schema.required@) =~~= tool_descriptor_spec(
                name@,
                config,
            ).input_schema.required);
            assert(tool_model(t) =~~= tool_descriptor_spec(name@, config));
        }
        t
    } else if str_eq(name, "confluence_get_page_children") {
        let mut props: Vec<(String, Property)> = Vec::new();
        props.push(("page_id".to_owned(), create_string_prop("Page ID")));
        let required: Vec<String> = vec!["page_id".to_owned()];
        let t = Tool {
            name: name.to_owned(),
            description: "Get page child pages".to_owned(),
            input_schema: mk_schema(props, required),
        };
        proof {
            assert(t.input_schema.properties@[0].0@ == "page_id"@);
            reveal_strlit("Get page child pages");
            assert(t.description@.len() > 0);
            assert(schema_wf(t));
            assert(props_model(t.input_schema.properties@) =~~= tool_descriptor_spec(
                name@,
                config,
            ).input_schema.properties);
            assert(views_of(t.input_schema.required@) =~~= tool_descriptor_spec(
                name@,
                config,
            ).input_schema.required);
            assert(tool_model(t) =~~= tool_descriptor_spec(name@, config));
        }
        t
    } else if str_eq(name, "confluence_get_comments") {
        let mut props: Vec<(String, Property)> = Vec::new();
        props.push(("page_id".to_owned(), create_string_prop("Page ID")));
        let required: Vec<String> = vec!["page_id".to_owned()];
        let t = Tool {
            name: name.to_owned(),
            description: "Get page comments".to_owned(),
            input_schema: mk_schema(props, required),
        };
        proof {
            assert(t.input_schema.properties@[0].0@ == "page_id"@);
            reveal_strlit("Get page comments");
            assert(t.description@.len() > 0);
            assert(schema_wf(t));
            assert(props_model(t.input_schema.properties@) =~~= tool_descriptor_spec(
                name@,
                config,
            ).input_schema.properties);
            assert(views_of(t.input_schema.required@) =~~= tool_descriptor_spec(
                name@,
                config,
            ).input_schema.required);
            assert(tool_model(t) =~~= tool_descriptor_spec(name@, config));
        }
        t
    } else if str_eq(name, "confluence_create_page") {
        let mut props: Vec<(String, Property)> = Vec::new();
        props.push(("space_key".to_owned(), create_string_prop("Space key")));
        props.push(("title".to_owned(), create_string_prop("Page title")));
        props.push((
            "content".to_owned(),
            create_string_prop("Page content in HTML storage format."),
        ));
        props.push(("parent_id".to_owned(), create_string_prop("Parent page ID")));
        let required: Vec<String> = vec![
            "space_key".to_owned(),
            "title".to_owned(),
            "content".to_owned(),
        ];
        let t = Tool {
            name: name.to_owned(),
            description: "Create Confluence page".to_owned(),
            input_schema: mk_schema(props, required),
        };
        proof {
            assert(t.input_schema.properties@[0].0@ == "space_key"@);
            assert(t.input_schema.properties@[1].0@ == "title"@);
            assert(t.input_schema.properties@[2].0@ == "content"@);
            reveal_strlit("Create Confluence page");
            assert(t.description@.len() > 0);
            assert(schema_wf(t));
            assert(props_model(t.input_schema.properties@) =~~= tool_descriptor_spec(
                name@,
                config,
            ).input_schema.properties);
            assert(views_of(t.input_schema.required@) =~~= tool_descriptor_spec(
                name@,
                config,
            ).input_schema.required);
            assert(tool_model(t) =~~= tool_descriptor_spec(name@, config));
        }
        t
    } else if str_eq(name, "confluence_update_page") {
        let mut props: Vec<(String, Property)> = Vec::new();
        props.push(("page_id".to_owned(), create_string_prop("Page ID")));
        props.push(("title".to_owned(), create_string_prop("Page title")));
        props.push((
            "content".to_owned(),
            create_string_prop("Page content in HTML storage format"),
        ));
        props.push((
            "version_number".to_owned(),
            create_number_prop(
                "Version number (optional). Current version is automatically retrieved and incremented.",
                1,
            ),
        ));
        let required: Vec<String> = vec![
            "page_id".to_owned(),
            "title".to_owned(),
            "content".to_owned(),
        ];
        let t = Tool {
            name: name.to_owned(),
            description: "Update Confluence page".to_owned(),
            input_schema: mk_schema(props, required),
        };
        proof {
            assert(t.input_schema.properties@[0].0@ == "page_id"@);
            assert(t.input_schema.properties@[1].0@ == "title"@);
            assert(t.input_schema.properties@[2].0@ == "content"@);
            reveal_strlit("Update Confluence page");
            assert(t.description@.len() > 0);
            assert(schema_wf(t));
            assert(props_model(t.input_schema.properties@) =~~= tool_descriptor_spec(
                name@,
                config,
            ).input_schema.properties);
            assert(views_of(t.input_schema.required@) =~~= tool_descriptor_spec(
                name@,
                config,
            ).input_schema.required);
            assert(tool_model(t) =~~= tool_descriptor_spec(name@, config));
        }
        t
    } else {
        let t = Tool {
            name: name.to_owned(),
            description: "Unknown tool".to_owned(),
            input_schema: mk_schema(Vec::new(), Vec::new()),
        };
        proof {
            assert(!spec_registered(name@)) by {
                assert(forall|i: int|
                    0 <= i < registry_names().len() ==> (#[trigger] registry_names()[i]) != name@);
            }
            assert(props_model(t.input_schema.properties@) =~~= Seq::<
                (Seq<char>, PropertyV),
            >::empty());
            assert(views_of(t.input_schema.required@) =~~= Seq::<Seq<char>>::empty());
            assert(tool_model(t) =~~= tool_descriptor_spec(name@, config));
        }
        t
    }
}

/// The JSON tree of a property descriptor model.
pub open spec fn prop_json_of(p: PropertyV) -> JsonV {
    JsonV::Obj(
        seq![("type"@, p.property_type)] + (match p.description {
            Option::Some(d) => seq![("description"@, JsonV::Str(d))],
            Option::None => Seq::empty(),
        }) + (match p.default {
            Option::Some(v) => seq![("default"@, v)],
            Option::None => Seq::empty(),
        }) + (match p.enum_values {
            Option::Some(vs) => seq![("enum"@, JsonV::Arr(vs))],
            Option::None => Seq::empty(),
        }),
    )
}

/// The JSON tree of an input-schema model.
pub open spec fn schema_json_of(s: SchemaV) -> JsonV {
    JsonV::Obj(
        seq![
            ("type"@, JsonV::Str(s.schema_type)),
            ("properties"@, JsonV::Obj(
                s.properties.map_values(|p: (Seq<char>, PropertyV)| (p.0, prop_json_of(p.1))),
            )),
            ("required"@, JsonV::Arr(s.required.map_values(|r: Seq<char>| JsonV::Str(r)))),
        ],
    )
}

/// The JSON tree of a tool-descriptor model.
pub open spec fn tool_json_of(tv: ToolV) -> JsonV {
    JsonV::Obj(
        seq![
            ("name"@, JsonV::Str(tv.name)),
            ("description"@, JsonV::Str(tv.description)),
            ("inputSchema"@, schema_json_of(tv.input_schema)),
        ],
    )
}

/// The two renderings agree: serializing a descriptor is serializing
/// its model.
pub proof fn lemma_tool_json_model(t: Tool)
    ensures
        tool_json_spec(t) == tool_json_of(tool_model(t)),
{
    let s = t.input_schema;
    assert forall|i: int| 0 <= i < s.properties@.len() implies prop_json_spec(
        (#[trigger] s.properties@[i]).1,
    ) == prop_json_of(prop_model(s.properties@[i].1)) by {
        assert(prop_json_spec(s.properties@[i].1) =~~= prop_json_of(
            prop_model(s.properties@[i].1),
        ));
    }
    assert(s.properties@.map_values(|p: (String, Property)| (p.0@, prop_json_spec(p.1)))
        =~= props_model(s.properties@).map_values(
        |q: (Seq<char>, PropertyV)| (q.0, prop_json_of(q.1)),
    ));
    assert(s.required@.map_values(|r: String| JsonV::Str(r@)) =~= views_of(
        s.required@,
    ).map_values(|r: Seq<char>| JsonV::Str(r)));
    assert(tool_json_spec(t) =~~= tool_json_of(tool_model(t)));
}

/// The JSON tree of a property descriptor.
pub open spec fn prop_json_spec(p: Property) -> JsonV {
    JsonV::Obj(
        seq![("type"@, jm(p.property_type))] + (match p.description {
            Option::Some(d) => seq![("description"@, JsonV::Str(d@))],
            Option::None => Seq::empty(),
        }) + (match p.default {
            Option::Some(v) => seq![("default"@, jm(v))],
            Option::None => Seq::empty(),
        }) + (match p.enum_values {
            Option::Some(vs) => seq![("enum"@, JsonV::Arr(jm_arr(vs@)))],
            Option::None => Seq::empty(),
        }),
    )
}

/// The JSON tree of an input schema.
pub open spec fn schema_json_spec(s: ToolInputSchema) -> JsonV {
    JsonV::Obj(
        seq![
            ("type"@, JsonV::Str(s.schema_type@)),
            ("properties"@, JsonV::Obj(
                s.properties@.map_values(|p: (String, Property)| (p.0@, prop_json_spec(p.1))),
            )),
            ("required"@, JsonV::Arr(s.required@.map_values(|r: String| JsonV::Str(r@)))),
        ],
    )
}

/// The JSON tree of a tool descriptor.
pub open spec fn tool_json_spec(t: Tool) -> JsonV {
    JsonV::Obj(
        seq![
            ("name"@, JsonV::Str(t.name@)),
            ("description"@, JsonV::Str(t.description@)),
            ("inputSchema"@, schema_json_spec(t.input_schema)),
        ],
    )
}

fn prop_json(p: &Property) -> (r: Json)
    ensures
        jm(r) == prop_json_spec(*p),
{
    let mut fs: Vec<(String, Json)> = Vec::new();
    fs.push(("type".to_owned(), p.property_type.duplicate()));
    match &p.description {
        Some(d) => {
            fs.push(("description".to_owned(), Json::Str(d.clone())));
        },
        None => {},
    }
    match &p.default {
        Some(v) => {
            fs.push(("default".to_owned(), v.duplicate()));
        },
        None => {},
    }
    match &p.enum_values {
        Some(vs) => {
            let mut arr: Vec<Json> = Vec::new();
            let mut i: usize = 0;
            proof {
                lemma_jm_arr_index(vs@);
                assert(jm_arr(arr@) =~= jm_arr(vs@).subrange(0, 0));
            }
            while i < vs.len()
                invariant
                    i <= vs@.len(),
                    jm_arr(vs@).len() == vs@.len(),
                    forall|j: int| 0 <= j < vs@.len() ==> jm_arr(vs@)[j] == jm(vs@[j]),
                    jm_arr(arr@) == jm_arr(vs@).subrange(0, i as int),
                decreases vs@.len() - i,
            {
                let ghost arr0 = arr@;
                let e = vs[i].duplicate();
                arr.push(e);
                proof {
                    lemma_jm_arr_index(arr@);
                    lemma_jm_arr_index(arr0);
                    assert(jm_arr(arr@) =~= jm_arr(arr0).push(jm_arr(vs@)[i as int]));
                    assert(jm_arr(vs@).subrange(0, i as int).push(jm_arr(vs@)[i as int])
                        =~= jm_arr(vs@).subrange(0, i + 1));
                }
                i = i + 1;
            }
            proof {
                assert(jm_arr(vs@).subrange(0, jm_arr(vs@).len() as int) =~= jm_arr(vs@));
            }
            fs.push(("enum".to_owned(), Json::Arr(arr)));
        },
        None => {},
    }
    proof {
        lemma_jm_obj_index(fs@);
        assert(jm_obj(fs@) =~= prop_json_spec(*p)->Obj_0);
    }
    Json::Obj(fs)
}

fn schema_json(s: &ToolInputSchema) -> (r: Json)
    ensures
        jm(r) == schema_json_spec(*s),
{
    let ghost pmodel = s.properties@.map_values(|p: (String, Property)| (p.0@, prop_json_spec(p.1)));
    let mut pfs: Vec<(String, Json)> = Vec::new();
    let mut i: usize = 0;
    proof {
        assert(jm_obj(pfs@) =~= pmodel.subrange(0, 0));
    }
    while i < s.properties.len()
        invariant
            i <= s.properties@.len(),
            pmodel == s.properties@.map_values(
                |p: (String, Property)| (p.0@, prop_json_spec(p.1)),
            ),
            pmodel.len() == s.properties@.len(),
            jm_obj(pfs@) == pmodel.subrange(0, i as int),
        decreases s.properties@.len() - i,
    {
        let ghost pfs0 = pfs@;
        let pj = prop_json(&s.properties[i].1);
        let key = s.properties[i].0.clone();
        pfs.push((key, pj));
        proof {
            lemma_jm_obj_index(pfs@);
            lemma_jm_obj_index(pfs0);
            assert(pmodel[i as int] == (s.properties@[i as int].0@, prop_json_spec(
                s.properties@[i as int].1,
            )));
            assert(jm_obj(pfs@) =~= jm_obj(pfs0).push(pmodel[i as int]));
            assert(pmodel.subrange(0, i as int).push(pmodel[i as int]) =~= pmodel.subrange(
                0,
                i + 1,
            ));
        }
        i = i + 1;
    }
    proof {
        assert(pmodel.subrange(0, pmodel.len() as int) =~= pmodel);
    }
    let ghost rmodel = s.required@.map_values(|r: String| JsonV::Str(r@));
    let mut rarr: Vec<Json> = Vec::new();
    let mut i: usize = 0;
    proof {
        assert(jm_arr(rarr@) =~= rmodel.subrange(0, 0));
    }
    while i < s.required.len()
        invariant
            i <= s.required@.len(),
            rmodel == s.required@.map_values(|r: String| JsonV::Str(r@)),
            rmodel.len() == s.required@.len(),
            jm_arr(rarr@) == rmodel.subrange(0, i as int),
        decreases s.required@.len() - i,
    {
        let ghost rarr0 = rarr@;
        rarr.push(Json::Str(s.required[i].clone()));
        proof {
            lemma_jm_arr_index(rarr@);
            lemma_jm_arr_index(rarr0);
            assert(rmodel[i as int] == JsonV::Str(s.required@[i as int]@));
            assert(jm_arr(rarr@) =~= jm_arr(rarr0).push(rmodel[i as int]));
            assert(rmodel.subrange(0, i as int).push(rmodel[i as int]) =~= rmodel.subrange(
                0,
                i + 1,
            ));
        }
        i = i + 1;
    }
    proof {
        assert(rmodel.subrange(0, rmodel.len() as int) =~= rmodel);
    }
    let mut fs: Vec<(String, Json)> = Vec::new();
    fs.push(("type".to_owned(), Json::Str(s.schema_type.clone())));
    fs.push(("properties".to_owned(), Json::Obj(pfs)));
    fs.push(("required".to_owned(), Json::Arr(rarr)));
    proof {
        lemma_jm_obj_index(fs@);
        assert(jm_obj(fs@) =~= schema_json_spec(*s)->Obj_0);
    }
    Json::Obj(fs)
}

/// The wire form of a tool descriptor.
pub fn tool_json(t: &Tool) -> (r: Json)
    ensures
        jm(r) == tool_json_spec(*t),
{
    let mut fs: Vec<(String, Json)> = Vec::new();
    fs.push(("name".to_owned(), Json::Str(t.name.clone())));
    fs.push(("description".to_owned(), Json::Str(t.description.clone())));
    fs.push(("inputSchema".to_owned(), schema_json(&t.input_schema)));
    proof {
        lemma_jm_obj_index(fs@);
        assert(jm_obj(fs@) =~= tool_json_spec(*t)->Obj_0);
    }
    Json::Obj(fs)
}

/// The descriptor of every registered tool, in registration order.
pub fn list_tools(config: &Config) -> (r: Vec<Tool>)
    ensures
        r@.len() == registry_names().len(),
        forall|i: int| 0 <= i < r@.len() ==> (#[trigger] r@[i]).name@ == registry_names()[i],
        forall|i: int| 0 <= i < r@.len() ==> schema_wf(#[trigger] r@[i]),
        forall|i: int| 0 <= i < r@.len() ==> tool_model(#[trigger] r@[i]) == tool_descriptor_spec(
            registry_names()[i],
            config,
        ),
{
    let names = registry_name_list();
    let mut out: Vec<Tool> = Vec::new();
    let mut i: usize = 0;
    while i < names.len()
        invariant
            i <= names@.len(),
            views_of(names@) == registry_names(),
            names@.len() == registry_names().len(),
            out@.len() == i,
            forall|j: int| 0 <= j < i ==> (#[trigger] out@[j]).name@ == registry_names()[j],
            forall|j: int| 0 <= j < i ==> schema_wf(#[trigger] out@[j]),
            forall|j: int| 0 <= j < i ==> tool_model(#[trigger] out@[j]) == tool_descriptor_spec(
                registry_names()[j],
                config,
            ),
        decreases names@.len() - i,
    {
        proof {
            assert(views_of(names@)[i as int] == names@[i as int]@);
            assert(registry_names().contains(registry_names()[i as int]));
        }
        let t = tool_to_mcp_tool(names[i].as_str(), config);
        out.push(t);
        i = i + 1;
    }
    out
}

} // verus!

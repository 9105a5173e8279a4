//! Latency and size telemetry of the commands whose cost matters.

use crate::json::{json_member, Json, JsonNum, JsonObject, JsonValue};
use crate::pipeline::count_json;
use crate::text::same_text;
use vstd::prelude::*;

verus! {

/// How long a metering command may take.
pub const METERING_LATENCY_BUDGET_MICROS: u64 = 5_000;

/// How long a change of the pipeline may take.
pub const PIPELINE_LATENCY_BUDGET_MICROS: u64 = 1_000_000;

/// How large the answer to a metering command may be.
pub const METERING_RESPONSE_BUDGET_BYTES: u64 = 65536;

/// How large the answer to a change of the pipeline may be.
pub const PIPELINE_RESPONSE_BUDGET_BYTES: u64 = 262144;

/// Counters of one kind of operation. They wrap around.
#[derive(Debug, Clone, Copy, PartialEq, Eq, Structural)]
pub struct OperationTelemetry {
    pub requests: u64,
    pub total_micros: u64,
    pub max_micros: u64,
    pub max_response_bytes: u64,
    pub budget_exceeded: u64,
}

/// The sum, wrapped around at the end of the range.
pub open spec fn wrapped_sum(a: u64, b: u64) -> u64 {
    if a + b > u64::MAX {
        (a + b - 0x1_0000_0000_0000_0000) as u64
    } else {
        (a + b) as u64
    }
}

/// The larger of two numbers.
pub open spec fn larger(a: u64, b: u64) -> u64 {
    if a >= b {
        a
    } else {
        b
    }
}

/// The counters after one more operation.
pub open spec fn recorded(
    t: OperationTelemetry,
    micros: u64,
    bytes: u64,
    latency_budget: u64,
    size_budget: u64,
) -> OperationTelemetry {
    OperationTelemetry {
        requests: wrapped_sum(t.requests, 1),
        total_micros: wrapped_sum(t.total_micros, micros),
        max_micros: larger(t.max_micros, micros),
        max_response_bytes: larger(t.max_response_bytes, bytes),
        budget_exceeded: if micros > latency_budget || bytes > size_budget {
            wrapped_sum(t.budget_exceeded, 1)
        } else {
            t.budget_exceeded
        },
    }
}

/// How clients see the counters.
pub open spec fn operation_json(t: OperationTelemetry) -> Json {
    Json::Object(
        map![
            "requests"@ => count_json(t.requests as int),
            "average_micros"@ => count_json(
                if t.requests == 0 { 0 } else { t.total_micros as int / t.requests as int },
            ),
            "max_micros"@ => count_json(t.max_micros as int),
            "max_response_bytes"@ => count_json(t.max_response_bytes as int),
            "budget_exceeded"@ => count_json(t.budget_exceeded as int),
        ],
    )
}

impl Default for OperationTelemetry {
    fn default() -> (r: OperationTelemetry)
        ensures
            r == no_operations(),
    {
        OperationTelemetry {
            requests: 0,
            total_micros: 0,
            max_micros: 0,
            max_response_bytes: 0,
            budget_exceeded: 0,
        }
    }
}

/// Counters before any operation.
pub open spec fn no_operations() -> OperationTelemetry {
    OperationTelemetry {
        requests: 0,
        total_micros: 0,
        max_micros: 0,
        max_response_bytes: 0,
        budget_exceeded: 0,
    }
}

fn wrap_add(a: u64, b: u64) -> (r: u64)
    ensures
        r == wrapped_sum(a, b),
{
    a.wrapping_add(b)
}

impl OperationTelemetry {
    fn record(
        &mut self,
        elapsed_micros: u64,
        response_bytes: u64,
        latency_budget_micros: u64,
        response_budget_bytes: u64,
    )
        ensures
            *final(self) == recorded(
                *old(self),
                elapsed_micros,
                response_bytes,
                latency_budget_micros,
                response_budget_bytes,
            ),
    {
        self.requests = wrap_add(self.requests, 1);
        self.total_micros = wrap_add(self.total_micros, elapsed_micros);
        if elapsed_micros > self.max_micros {
            self.max_micros = elapsed_micros;
        }
        if response_bytes > self.max_response_bytes {
            self.max_response_bytes = response_bytes;
        }
        if elapsed_micros > latency_budget_micros || response_bytes > response_budget_bytes {
            self.budget_exceeded = wrap_add(self.budget_exceeded, 1);
        }
    }

    fn snapshot(&self) -> (r: JsonValue)
        ensures
            r@ == operation_json(*self),
    {
        let average: u64 = if self.requests == 0 {
            0
        } else {
            self.total_micros / self.requests
        };
        let mut out = JsonObject::new();
        out.put_unsigned("requests", self.requests);
        out.put_unsigned("average_micros", average);
        out.put_unsigned("max_micros", self.max_micros);
        out.put_unsigned("max_response_bytes", self.max_response_bytes);
        out.put_unsigned("budget_exceeded", self.budget_exceeded);
        out.finish()
    }
}

/// Telemetry of metering and of changes of the pipeline.
#[derive(Debug, Clone, Copy, PartialEq, Eq, Structural)]
pub struct RuntimeTelemetry {
    pub metering: OperationTelemetry,
    pub pipeline_reload: OperationTelemetry,
}

/// Whether a command reads meters.
pub open spec fn is_metering_command(command: Seq<char>) -> bool {
    command == "get_metering"@ || command == "get_loudness"@
}

/// Whether a command changes the pipeline.
pub open spec fn is_pipeline_command(command: Seq<char>) -> bool {
    ||| command == "load_plugins"@
    ||| command == "load_plugin_artifact"@
    ||| command == "load_plugin_artifact_path"@
    ||| command == "add_plugin"@
    ||| command == "remove_plugin"@
    ||| command == "update_plugin"@
    ||| command == "reorder_plugins"@
    ||| command == "reorder_graph"@
    ||| command == "set_input_channels"@
    ||| command == "set_output_channels"@
    ||| command == "set_pipeline_channels"@
}

/// The telemetry after a command.
pub open spec fn with_command(t: RuntimeTelemetry, command: Seq<char>, micros: u64, bytes: u64) -> RuntimeTelemetry {
    if is_metering_command(command) {
        RuntimeTelemetry {
            metering: recorded(
                t.metering,
                micros,
                bytes,
                METERING_LATENCY_BUDGET_MICROS,
                METERING_RESPONSE_BUDGET_BYTES,
            ),
            ..t
        }
    } else if is_pipeline_command(command) {
        RuntimeTelemetry {
            pipeline_reload: recorded(
                t.pipeline_reload,
                micros,
                bytes,
                PIPELINE_LATENCY_BUDGET_MICROS,
                PIPELINE_RESPONSE_BUDGET_BYTES,
            ),
            ..t
        }
    } else {
        t
    }
}

/// The budgets as clients see them.
pub open spec fn budgets_json() -> Json {
    Json::Object(
        map![
            "metering_latency_micros"@ => count_json(METERING_LATENCY_BUDGET_MICROS as int),
            "metering_response_bytes"@ => count_json(METERING_RESPONSE_BUDGET_BYTES as int),
            "pipeline_latency_micros"@ => count_json(PIPELINE_LATENCY_BUDGET_MICROS as int),
            "pipeline_response_bytes"@ => count_json(PIPELINE_RESPONSE_BUDGET_BYTES as int),
        ],
    )
}

/// How clients see the telemetry.
pub open spec fn telemetry_json(t: RuntimeTelemetry) -> Json {
    Json::Object(
        map![
            "metering"@ => operation_json(t.metering),
            "pipeline_reload"@ => operation_json(t.pipeline_reload),
            "budgets"@ => budgets_json(),
        ],
    )
}

impl Default for RuntimeTelemetry {
    fn default() -> (r: RuntimeTelemetry)
        ensures
            r == (RuntimeTelemetry { metering: no_operations(), pipeline_reload: no_operations() }),
    {
        RuntimeTelemetry {
            metering: OperationTelemetry::default(),
            pipeline_reload: OperationTelemetry::default(),
        }
    }
}

impl RuntimeTelemetry {
    /// Counts a command with the time it took and the size of its answer.
    pub fn record_command(&mut self, command: &str, elapsed_micros: u64, response_bytes: u64)
        ensures
            *final(self) == with_command(*old(self), command@, elapsed_micros, response_bytes),
    {
        if same_text(command, "get_metering") || same_text(command, "get_loudness") {
            self.metering.record(
                elapsed_micros,
                response_bytes,
                METERING_LATENCY_BUDGET_MICROS,
                METERING_RESPONSE_BUDGET_BYTES,
            );
        } else if same_text(command, "load_plugins") || same_text(command, "load_plugin_artifact")
            || same_text(command, "load_plugin_artifact_path") || same_text(command, "add_plugin")
            || same_text(command, "remove_plugin") || same_text(command, "update_plugin")
            || same_text(command, "reorder_plugins") || same_text(command, "reorder_graph")
            || same_text(command, "set_input_channels") || same_text(command, "set_output_channels")
            || same_text(command, "set_pipeline_channels") {
            self.pipeline_reload.record(
                elapsed_micros,
                response_bytes,
                PIPELINE_LATENCY_BUDGET_MICROS,
                PIPELINE_RESPONSE_BUDGET_BYTES,
            );
        }
    }

    /// How clients see the telemetry.
    pub fn snapshot(&self) -> (r: JsonValue)
        ensures
            r@ == telemetry_json(*self),
    {
        let mut budgets = JsonObject::new();
        budgets.put_unsigned("metering_latency_micros", METERING_LATENCY_BUDGET_MICROS);
        budgets.put_unsigned("metering_response_bytes", METERING_RESPONSE_BUDGET_BYTES);
        budgets.put_unsigned("pipeline_latency_micros", PIPELINE_LATENCY_BUDGET_MICROS);
        budgets.put_unsigned("pipeline_response_bytes", PIPELINE_RESPONSE_BUDGET_BYTES);
        let mut out = JsonObject::new();
        out.put("metering", self.metering.snapshot());
        out.put("pipeline_reload", self.pipeline_reload.snapshot());
        out.put("budgets", budgets.finish());
        out.finish()
    }
}

/// A request is counted once, with its time and its size, and as over budget where it took longer or
/// was larger than its budget. A metering request counts for metering alone, a request that reloads the
/// pipeline for that alone, and any other one for neither.
pub proof fn requests_are_counted_once(t: RuntimeTelemetry, command: Seq<char>, micros: u64, bytes: u64)
    requires
        t.metering.requests < u64::MAX && t.metering.budget_exceeded < u64::MAX,
        t.pipeline_reload.requests < u64::MAX && t.pipeline_reload.budget_exceeded < u64::MAX,
        t.metering.total_micros + micros <= u64::MAX,
        t.pipeline_reload.total_micros + micros <= u64::MAX,
    ensures
        ({
            let after = with_command(t, command, micros, bytes);
            let metered = command == "get_metering"@ || command == "get_loudness"@;
            let reloaded = !metered && is_pipeline_command(command);
            &&& metered ==> counts_one(t.metering, after.metering, micros, bytes, 5_000, 65_536)
            &&& !metered ==> after.metering == t.metering
            &&& reloaded ==> counts_one(
                t.pipeline_reload,
                after.pipeline_reload,
                micros,
                bytes,
                1_000_000,
                262_144,
            )
            &&& !reloaded ==> after.pipeline_reload == t.pipeline_reload
        }),
{
}

/// Whether one more request was counted.
pub open spec fn counts_one(
    before: OperationTelemetry,
    after: OperationTelemetry,
    micros: u64,
    bytes: u64,
    most_micros: u64,
    most_bytes: u64,
) -> bool {
    &&& after.requests == before.requests + 1
    &&& after.total_micros == before.total_micros + micros
    &&& after.max_micros >= before.max_micros && after.max_micros >= micros
    &&& after.max_micros == before.max_micros || after.max_micros == micros
    &&& after.max_response_bytes >= before.max_response_bytes && after.max_response_bytes >= bytes
    &&& after.max_response_bytes == before.max_response_bytes || after.max_response_bytes == bytes
    &&& after.budget_exceeded == before.budget_exceeded + if micros > most_micros || bytes > most_bytes {
        1int
    } else {
        0int
    }
}

/// The report shows each operation's own counts, with the average time of a request.
pub proof fn telemetry_shows_its_counts(t: RuntimeTelemetry)
    ensures
        ({
            let report = telemetry_json(t);
            let metering = json_member(report, "metering"@);
            let reload = json_member(report, "pipeline_reload"@);
            &&& metering is Some && shows_counts(metering->0, t.metering)
            &&& reload is Some && shows_counts(reload->0, t.pipeline_reload)
            &&& json_member(report, "budgets"@) is Some
        }),
{
    reveal_strlit("budgets");
    assert("budgets"@.len() == 7);
    reveal_strlit("metering");
    assert("metering"@.len() == 8);
    reveal_strlit("pipeline_reload");
    assert("pipeline_reload"@.len() == 15);
    lemma_shows_counts(t.metering);
    lemma_shows_counts(t.pipeline_reload);
}

/// Whether a report shows the counts of an operation.
pub open spec fn shows_counts(report: Json, t: OperationTelemetry) -> bool {
    &&& json_member(report, "requests"@) == Some(Json::Number(JsonNum::Unsigned(t.requests)))
    &&& json_member(report, "average_micros"@) == Some(
        Json::Number(
            JsonNum::Unsigned(
                if t.requests == 0 { 0 } else { (t.total_micros as int / t.requests as int) as u64 },
            ),
        ),
    )
    &&& json_member(report, "max_micros"@) == Some(Json::Number(JsonNum::Unsigned(t.max_micros)))
    &&& json_member(report, "max_response_bytes"@) == Some(
        Json::Number(JsonNum::Unsigned(t.max_response_bytes)),
    )
    &&& json_member(report, "budget_exceeded"@) == Some(
        Json::Number(JsonNum::Unsigned(t.budget_exceeded)),
    )
}

proof fn lemma_shows_counts(t: OperationTelemetry)
    ensures
        shows_counts(operation_json(t), t),
{
    reveal_strlit("requests");
    assert("requests"@.len() == 8);
    reveal_strlit("max_micros");
    assert("max_micros"@.len() == 10);
    reveal_strlit("average_micros");
    assert("average_micros"@.len() == 14);
    reveal_strlit("budget_exceeded");
    assert("budget_exceeded"@.len() == 15);
    reveal_strlit("max_response_bytes");
    assert("max_response_bytes"@.len() == 18);
}

/// What reloads the pipeline is told apart from what reads the meters.
pub proof fn reloads_are_not_readings(command: Seq<char>)
    ensures
        is_pipeline_command(command) ==> !is_metering_command(command),
        is_pipeline_command("load_plugins"@) && is_pipeline_command("load_plugin_artifact"@),
        is_pipeline_command("load_plugin_artifact_path"@) && is_pipeline_command("add_plugin"@),
        is_pipeline_command("remove_plugin"@) && is_pipeline_command("update_plugin"@),
        is_pipeline_command("reorder_plugins"@) && is_pipeline_command("reorder_graph"@),
        is_pipeline_command("set_input_channels"@) && is_pipeline_command("set_output_channels"@),
        is_pipeline_command("set_pipeline_channels"@),
        is_metering_command("get_metering"@) && is_metering_command("get_loudness"@),
{
    reveal_strlit("add_plugin");
    assert("add_plugin"@.len() == 10);
    reveal_strlit("get_metering");
    assert("get_metering"@.len() == 12);
    assert("get_metering"@[4] == 'm');
    reveal_strlit("get_loudness");
    assert("get_loudness"@.len() == 12);
    assert("get_loudness"@[4] == 'l');
    reveal_strlit("load_plugins");
    assert("load_plugins"@.len() == 12);
    assert("load_plugins"@[4] == '_');
    reveal_strlit("remove_plugin");
    assert("remove_plugin"@.len() == 13);
    assert("remove_plugin"@[2] == 'm');
    reveal_strlit("update_plugin");
    assert("update_plugin"@.len() == 13);
    assert("update_plugin"@[2] == 'd');
    reveal_strlit("reorder_graph");
    assert("reorder_graph"@.len() == 13);
    assert("reorder_graph"@[2] == 'o');
    reveal_strlit("reorder_plugins");
    assert("reorder_plugins"@.len() == 15);
    reveal_strlit("set_input_channels");
    assert("set_input_channels"@.len() == 18);
    reveal_strlit("set_output_channels");
    assert("set_output_channels"@.len() == 19);
    reveal_strlit("load_plugin_artifact");
    assert("load_plugin_artifact"@.len() == 20);
    reveal_strlit("set_pipeline_channels");
    assert("set_pipeline_channels"@.len() == 21);
    reveal_strlit("load_plugin_artifact_path");
    assert("load_plugin_artifact_path"@.len() == 25);
}

/// The report names the budgets that requests are held to.
pub proof fn budgets_are_shown(t: RuntimeTelemetry)
    ensures
        ({
            let budgets = json_member(telemetry_json(t), "budgets"@)->0;
            &&& json_member(telemetry_json(t), "budgets"@) is Some
            &&& json_member(budgets, "metering_latency_micros"@) == Some(
                Json::Number(JsonNum::Unsigned(5_000)),
            )
            &&& json_member(budgets, "metering_response_bytes"@) == Some(
                Json::Number(JsonNum::Unsigned(65_536)),
            )
            &&& json_member(budgets, "pipeline_latency_micros"@) == Some(
                Json::Number(JsonNum::Unsigned(1_000_000)),
            )
            &&& json_member(budgets, "pipeline_response_bytes"@) == Some(
                Json::Number(JsonNum::Unsigned(262_144)),
            )
        }),
{
    reveal_strlit("budgets");
    assert("budgets"@.len() == 7);
    reveal_strlit("metering");
    assert("metering"@.len() == 8);
    reveal_strlit("pipeline_reload");
    assert("pipeline_reload"@.len() == 15);
    reveal_strlit("metering_latency_micros");
    assert("metering_latency_micros"@.len() == 23);
    assert("metering_latency_micros"@[0] == 'm');
    assert("metering_latency_micros"@[9] == 'l');
    reveal_strlit("metering_response_bytes");
    assert("metering_response_bytes"@.len() == 23);
    assert("metering_response_bytes"@[0] == 'm');
    assert("metering_response_bytes"@[9] == 'r');
    reveal_strlit("pipeline_latency_micros");
    assert("pipeline_latency_micros"@.len() == 23);
    assert("pipeline_latency_micros"@[0] == 'p');
    assert("pipeline_latency_micros"@[9] == 'l');
    reveal_strlit("pipeline_response_bytes");
    assert("pipeline_response_bytes"@.len() == 23);
    assert("pipeline_response_bytes"@[0] == 'p');
    assert("pipeline_response_bytes"@[9] == 'r');
}

/// Recording a command counts that command and leaves the other operation alone.
pub proof fn recorded_commands_are_counted(
    telemetry: &mut RuntimeTelemetry,
    command: &str,
    micros: u64,
    bytes: u64,
)
    requires
        call_ensures(RuntimeTelemetry::record_command, (telemetry, command, micros, bytes), ()),
    ensures
        ({
            let metered = command@ == "get_metering"@ || command@ == "get_loudness"@;
            &&& metered && old(telemetry).metering.requests < u64::MAX ==> final(telemetry).metering.requests
                == old(telemetry).metering.requests + 1
            &&& metered ==> final(telemetry).pipeline_reload == old(telemetry).pipeline_reload
            &&& !metered ==> final(telemetry).metering == old(telemetry).metering
        }),
{
}

} // verus!

use vstd::prelude::*;

verus! {

/// Milliseconds since the Unix epoch.
pub type Millis = u64;

/// Nanoseconds since the Unix epoch.
pub type Nanos = u64;

#[allow(non_snake_case)]
#[derive(Debug)]
pub struct GetInformationRequest {
    pub version: bool,
    pub status: Option<StatusRequest>,
    pub metrics: Option<MetricsRequest>,
    pub logs: Option<CanisterLogRequest>,
}

#[allow(non_snake_case)]
#[derive(Debug)]
pub struct GetInformationResponse {
    pub version: Option<u64>,
    pub status: Option<StatusResponse>,
    pub metrics: Option<MetricsResponse>,
    pub logs: Option<CanisterLogResponse>,
}

#[allow(non_snake_case)]
#[derive(Debug)]
pub struct StatusRequest {
    pub cycles: bool,
    pub memory_size: bool,
    pub heap_memory_size: bool,
}

#[allow(non_snake_case)]
#[derive(Debug)]
pub struct StatusResponse {
    pub cycles: Option<u64>,
    pub memory_size: Option<u64>,
    pub heap_memory_size: Option<u64>,
}

#[allow(non_snake_case)]
#[derive(Debug)]
pub struct MetricsRequest {
    pub parameters: GetMetricsParameters,
}

#[allow(non_snake_case)]
#[derive(Debug)]
pub struct MetricsResponse {
    pub metrics: Option<CanisterMetrics>,
}

#[allow(non_snake_case)]
#[derive(Debug)]
pub struct UpdateInformationRequest {
    pub metrics: Option<CollectMetricsRequestType>,
}

#[allow(non_camel_case_types)]
#[derive(Debug, Clone, Copy, PartialEq, Eq, Structural)]
pub enum CollectMetricsRequestType {
    normal,
    force,
}

#[allow(non_snake_case)]
#[derive(Debug)]
pub struct GetMetricsParameters {
    pub granularity: MetricsGranularity,
    pub dateFromMillis: Millis,
    pub dateToMillis: Millis,
}

#[allow(non_camel_case_types)]
#[derive(Debug, Clone, Copy, PartialEq, Eq, Structural)]
pub enum MetricsGranularity {
    hourly,
    daily,
}

#[derive(Debug)]
pub struct CanisterMetrics {
    pub data: CanisterMetricsData,
}

#[allow(non_camel_case_types)]
#[derive(Debug)]
pub enum CanisterMetricsData {
    daily(Vec<DailyMetricsData>),
    hourly(Vec<HourlyMetricsData>),
}

#[allow(non_snake_case)]
#[derive(Debug)]
pub struct DailyMetricsData {
    pub canisterCycles: NumericEntity,
    pub canisterHeapMemorySize: NumericEntity,
    pub canisterMemorySize: NumericEntity,
    pub timeMillis: Millis,
    pub updateCalls: u64,
}

#[derive(Debug, Clone, Copy, PartialEq, Eq, Structural)]
pub struct NumericEntity {
    pub avg: u64,
    pub first: u64,
    pub last: u64,
    pub max: u64,
    pub min: u64,
}

#[allow(non_snake_case)]
#[derive(Debug)]
pub struct HourlyMetricsData {
    pub timeMillis: Millis,
    pub canisterCycles: Vec<u64>,
    pub canisterHeapMemorySize: Vec<u64>,
    pub canisterMemorySize: Vec<u64>,
    pub updateCalls: Vec<u64>,
}

#[allow(non_camel_case_types)]
#[derive(Debug)]
pub enum CanisterLogRequest {
    getMessagesInfo,
    getMessages(GetLogMessagesParameters),
    getLatestMessages(GetLatestLogMessagesParameters),
}

#[allow(non_camel_case_types)]
#[derive(Debug)]
pub enum CanisterLogResponse {
    messagesInfo(CanisterLogMessagesInfo),
    messages(CanisterLogMessages),
}

#[allow(non_snake_case)]
#[derive(Debug)]
pub struct GetLogMessagesFilter {
    pub analyzeCount: u32,
    pub messageContains: Option<String>,
    pub messageRegex: Option<String>,
}

#[allow(non_snake_case)]
#[derive(Debug)]
pub struct GetLogMessagesParameters {
    pub count: u32,
    pub filter: Option<GetLogMessagesFilter>,
    pub fromTimeNanos: Option<Nanos>,
}

#[allow(non_snake_case)]
#[derive(Debug)]
pub struct GetLatestLogMessagesParameters {
    pub count: u32,
    pub filter: Option<GetLogMessagesFilter>,
    pub upToTimeNanos: Option<Nanos>,
}

#[allow(non_snake_case)]
#[derive(Debug)]
pub struct CanisterLogMessages {
    pub data: Vec<LogMessageData>,
    pub lastAnalyzedMessageTimeNanos: Option<Nanos>,
}

#[allow(non_snake_case)]
#[derive(Debug)]
pub struct LogMessageData {
    pub timeNanos: Nanos,
    pub message: String,
}

impl Clone for LogMessageData {
    fn clone(&self) -> (r: Self)
        ensures
            r == *self,
    {
        LogMessageData { timeNanos: self.timeNanos, message: self.message.clone() }
    }
}

#[allow(non_camel_case_types)]
#[derive(Debug, Clone, Copy, PartialEq, Eq, Structural)]
pub enum CanisterLogFeature {
    filterMessageByContains,
    filterMessageByRegex,
}

#[allow(non_snake_case)]
#[derive(Debug)]
pub struct CanisterLogMessagesInfo {
    pub count: u32,
    pub features: Vec<Option<CanisterLogFeature>>,
    pub firstTimeNanos: Option<Nanos>,
    pub lastTimeNanos: Option<Nanos>,
}

} // verus!

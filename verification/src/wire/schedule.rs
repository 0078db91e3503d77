//! Wire messages of the schedule service.

use vstd::prelude::*;
use crate::model::option_view;
use crate::model::views;

verus! {

/// A job that runs on a schedule.
#[derive(Debug, Clone, PartialEq)]
pub struct Schedule {
    pub id: String,
    pub name: String,
    /// When the job fires: the definition of its trigger.
    pub expression: String,
    pub task_type: String,
    pub command: String,
    pub message: String,
    /// Whether the job fires at all.
    pub enabled: bool,
    pub last_run: String,
    pub next_run: String,
    pub run_count: i64,
    pub created_at: String,
}

/// The content of a `Schedule`.
pub struct ScheduleView {
    pub id: Seq<char>,
    pub name: Seq<char>,
    pub expression: Seq<char>,
    pub task_type: Seq<char>,
    pub command: Seq<char>,
    pub message: Seq<char>,
    pub enabled: bool,
    pub last_run: Seq<char>,
    pub next_run: Seq<char>,
    pub run_count: i64,
    pub created_at: Seq<char>,
}

impl View for Schedule {
    type V = ScheduleView;

    open spec fn view(&self) -> ScheduleView {
        ScheduleView {
            id: self.id@,
            name: self.name@,
            expression: self.expression@,
            task_type: self.task_type@,
            command: self.command@,
            message: self.message@,
            enabled: self.enabled,
            last_run: self.last_run@,
            next_run: self.next_run@,
            run_count: self.run_count,
            created_at: self.created_at@,
        }
    }
}

/// The request to create a schedule.
#[derive(Debug, Clone, PartialEq)]
pub struct CreateScheduleRequest {
    pub name: String,
    pub expression: String,
    pub task_type: String,
    pub command: String,
    pub message: String,
    pub enabled: bool,
}

/// The content of a `CreateScheduleRequest`.
pub struct CreateScheduleRequestView {
    pub name: Seq<char>,
    pub expression: Seq<char>,
    pub task_type: Seq<char>,
    pub command: Seq<char>,
    pub message: Seq<char>,
    pub enabled: bool,
}

impl View for CreateScheduleRequest {
    type V = CreateScheduleRequestView;

    open spec fn view(&self) -> CreateScheduleRequestView {
        CreateScheduleRequestView {
            name: self.name@,
            expression: self.expression@,
            task_type: self.task_type@,
            command: self.command@,
            message: self.message@,
            enabled: self.enabled,
        }
    }
}

/// The request to change a schedule.
#[derive(Debug, Clone, PartialEq)]
pub struct UpdateScheduleRequest {
    pub name: String,
    pub expression: String,
    pub task_type: String,
    pub command: String,
    pub message: String,
    pub enabled: bool,
}

/// The content of a `UpdateScheduleRequest`.
pub struct UpdateScheduleRequestView {
    pub name: Seq<char>,
    pub expression: Seq<char>,
    pub task_type: Seq<char>,
    pub command: Seq<char>,
    pub message: Seq<char>,
    pub enabled: bool,
}

impl View for UpdateScheduleRequest {
    type V = UpdateScheduleRequestView;

    open spec fn view(&self) -> UpdateScheduleRequestView {
        UpdateScheduleRequestView {
            name: self.name@,
            expression: self.expression@,
            task_type: self.task_type@,
            command: self.command@,
            message: self.message@,
            enabled: self.enabled,
        }
    }
}

/// The notice that a schedule has fired.
#[derive(Debug, Clone, PartialEq)]
pub struct ScheduleTrigger {
    pub schedule_id: String,
    pub name: String,
    pub task_type: String,
    pub command: String,
    pub message: String,
    pub fired_at: String,
}

/// The content of a `ScheduleTrigger`.
pub struct ScheduleTriggerView {
    pub schedule_id: Seq<char>,
    pub name: Seq<char>,
    pub task_type: Seq<char>,
    pub command: Seq<char>,
    pub message: Seq<char>,
    pub fired_at: Seq<char>,
}

impl View for ScheduleTrigger {
    type V = ScheduleTriggerView;

    open spec fn view(&self) -> ScheduleTriggerView {
        ScheduleTriggerView {
            schedule_id: self.schedule_id@,
            name: self.name@,
            task_type: self.task_type@,
            command: self.command@,
            message: self.message@,
            fired_at: self.fired_at@,
        }
    }
}

/// One past run of a schedule.
#[derive(Debug, Clone, PartialEq)]
pub struct ScheduleHistoryEntry {
    pub id: String,
    pub schedule_name: String,
    pub started_at: String,
    pub finished_at: String,
    pub success: bool,
    pub output: String,
    pub error: String,
}

/// The content of a `ScheduleHistoryEntry`.
pub struct ScheduleHistoryEntryView {
    pub id: Seq<char>,
    pub schedule_name: Seq<char>,
    pub started_at: Seq<char>,
    pub finished_at: Seq<char>,
    pub success: bool,
    pub output: Seq<char>,
    pub error: Seq<char>,
}

impl View for ScheduleHistoryEntry {
    type V = ScheduleHistoryEntryView;

    open spec fn view(&self) -> ScheduleHistoryEntryView {
        ScheduleHistoryEntryView {
            id: self.id@,
            schedule_name: self.schedule_name@,
            started_at: self.started_at@,
            finished_at: self.finished_at@,
            success: self.success,
            output: self.output@,
            error: self.error@,
        }
    }
}

/// The answer to a request that yields a schedule.
#[derive(Debug, Clone, PartialEq)]
pub struct ScheduleResponse {
    /// The schedule; absent on failure.
    pub schedule: Option<Schedule>,
    /// Why the request failed; empty on success.
    pub error: String,
}

/// The content of a `ScheduleResponse`.
pub struct ScheduleResponseView {
    pub schedule: Option<ScheduleView>,
    pub error: Seq<char>,
}

impl View for ScheduleResponse {
    type V = ScheduleResponseView;

    open spec fn view(&self) -> ScheduleResponseView {
        ScheduleResponseView {
            schedule: option_view(self.schedule),
            error: self.error@,
        }
    }
}

/// The request to list schedules.
#[derive(Debug, Clone, PartialEq)]
pub struct ListSchedulesRequest {
    pub limit: i32,
    pub offset: i32,
    pub enabled_only: bool,
}

/// The content of a `ListSchedulesRequest`.
pub struct ListSchedulesRequestView {
    pub limit: i32,
    pub offset: i32,
    pub enabled_only: bool,
}

impl View for ListSchedulesRequest {
    type V = ListSchedulesRequestView;

    open spec fn view(&self) -> ListSchedulesRequestView {
        ListSchedulesRequestView {
            limit: self.limit,
            offset: self.offset,
            enabled_only: self.enabled_only,
        }
    }
}

/// The answer to a request to list schedules.
#[derive(Debug, Clone, PartialEq)]
pub struct ListSchedulesResponse {
    pub schedules: Vec<Schedule>,
    pub total: i64,
}

/// The content of a `ListSchedulesResponse`.
pub struct ListSchedulesResponseView {
    pub schedules: Seq<ScheduleView>,
    pub total: i64,
}

impl View for ListSchedulesResponse {
    type V = ListSchedulesResponseView;

    open spec fn view(&self) -> ListSchedulesResponseView {
        ListSchedulesResponseView {
            schedules: views(self.schedules@),
            total: self.total,
        }
    }
}

/// The answer to a request to delete a schedule.
#[derive(Debug, Clone, PartialEq)]
pub struct DeleteScheduleResponse {
    pub success: bool,
    pub error: String,
}

/// The content of a `DeleteScheduleResponse`.
pub struct DeleteScheduleResponseView {
    pub success: bool,
    pub error: Seq<char>,
}

impl View for DeleteScheduleResponse {
    type V = DeleteScheduleResponseView;

    open spec fn view(&self) -> DeleteScheduleResponseView {
        DeleteScheduleResponseView {
            success: self.success,
            error: self.error@,
        }
    }
}

/// The answer to a request to fire a schedule now.
#[derive(Debug, Clone, PartialEq)]
pub struct TriggerResponse {
    pub success: bool,
    pub output: String,
    pub error: String,
}

/// The content of a `TriggerResponse`.
pub struct TriggerResponseView {
    pub success: bool,
    pub output: Seq<char>,
    pub error: Seq<char>,
}

impl View for TriggerResponse {
    type V = TriggerResponseView;

    open spec fn view(&self) -> TriggerResponseView {
        TriggerResponseView {
            success: self.success,
            output: self.output@,
            error: self.error@,
        }
    }
}

/// The request for the past runs of a schedule.
#[derive(Debug, Clone, PartialEq)]
pub struct ScheduleHistoryRequest {
    pub name: String,
    pub limit: i32,
    pub offset: i32,
}

/// The content of a `ScheduleHistoryRequest`.
pub struct ScheduleHistoryRequestView {
    pub name: Seq<char>,
    pub limit: i32,
    pub offset: i32,
}

impl View for ScheduleHistoryRequest {
    type V = ScheduleHistoryRequestView;

    open spec fn view(&self) -> ScheduleHistoryRequestView {
        ScheduleHistoryRequestView {
            name: self.name@,
            limit: self.limit,
            offset: self.offset,
        }
    }
}

/// The answer to a request for the past runs of a schedule.
#[derive(Debug, Clone, PartialEq)]
pub struct ScheduleHistoryResponse {
    pub entries: Vec<ScheduleHistoryEntry>,
    pub total: i64,
}

/// The content of a `ScheduleHistoryResponse`.
pub struct ScheduleHistoryResponseView {
    pub entries: Seq<ScheduleHistoryEntryView>,
    pub total: i64,
}

impl View for ScheduleHistoryResponse {
    type V = ScheduleHistoryResponseView;

    open spec fn view(&self) -> ScheduleHistoryResponseView {
        ScheduleHistoryResponseView {
            entries: views(self.entries@),
            total: self.total,
        }
    }
}
} // verus!

//! Wire messages of the UI service.

use vstd::prelude::*;
use crate::model::option_view;
use crate::model::views;
use crate::ui::SelectOptionView;
use crate::ui::UiBlockView;
use crate::ui::UiEventResultView;
use crate::ui::UiEventView;
use crate::ui::ViewContent;

verus! {

/// One choice of a select block.
#[derive(Debug, Clone, PartialEq)]
pub struct SelectOption {
    pub label: String,
    pub value: String,
}

impl View for SelectOption {
    type V = SelectOptionView;

    open spec fn view(&self) -> SelectOptionView {
        SelectOptionView {
            label: self.label@,
            value: self.value@,
        }
    }
}

/// One element of a view.
#[derive(Debug, Clone, PartialEq)]
pub struct UiBlock {
    pub block_id: String,
    pub kind: String,
    pub text: String,
    pub value: String,
    pub placeholder: String,
    pub hint: String,
    pub variant: String,
    pub src: String,
    pub alt: String,
    pub disabled: bool,
    pub options: Vec<SelectOption>,
    pub style: String,
}

impl View for UiBlock {
    type V = UiBlockView;

    open spec fn view(&self) -> UiBlockView {
        UiBlockView {
            block_id: self.block_id@,
            kind: self.kind@,
            text: self.text@,
            value: self.value@,
            placeholder: self.placeholder@,
            hint: self.hint@,
            variant: self.variant@,
            src: self.src@,
            alt: self.alt@,
            disabled: self.disabled,
            options: views(self.options@),
            style: self.style@,
        }
    }
}

/// A whole view that the host can render.
#[derive(Debug, Clone, PartialEq)]
pub struct UiView {
    pub view_id: String,
    pub title: String,
    pub blocks: Vec<UiBlock>,
}

impl View for UiView {
    type V = ViewContent;

    open spec fn view(&self) -> ViewContent {
        ViewContent {
            view_id: self.view_id@,
            title: self.title@,
            blocks: views(self.blocks@),
        }
    }
}

/// Something the user did in a view.
#[derive(Debug, Clone, PartialEq)]
pub struct UiEvent {
    pub view_id: String,
    pub block_id: String,
    pub action: String,
    pub value: String,
}

impl View for UiEvent {
    type V = UiEventView;

    open spec fn view(&self) -> UiEventView {
        UiEventView {
            view_id: self.view_id@,
            block_id: self.block_id@,
            action: self.action@,
            value: self.value@,
        }
    }
}

/// The answer to an event.
#[derive(Debug, Clone, PartialEq)]
pub struct UiEventResponse {
    pub view: Option<UiView>,
    pub error: String,
    pub toast: String,
}

impl View for UiEventResponse {
    type V = UiEventResultView;

    open spec fn view(&self) -> UiEventResultView {
        UiEventResultView {
            view: option_view(self.view),
            error: self.error@,
            toast: self.toast@,
        }
    }
}
} // verus!

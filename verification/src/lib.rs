//! Decision logic of the claustre terminal workbench.

pub mod actions;
pub mod app;
pub mod board;
pub mod board_state;
pub mod compose;
pub mod composer;
pub mod conversation;
pub mod dashboard;
pub mod drafts;
pub mod effects;
pub mod event_loop;
pub mod input_board;
pub mod input_drawers;
pub mod input_mouse;
pub mod input_pickers;
pub mod input_session;
pub mod input_settings;
pub mod input_skills;
pub mod input_tasks;
pub mod json;
pub mod keys;
pub mod launch;
pub mod launching;
pub mod lists;
pub mod messages;
pub mod moves;
pub mod news;
pub mod outcomes;
pub mod palette;
pub mod panes;
pub mod probes;
pub mod project_form;
pub mod ranking;
pub mod refresh;
pub mod review;
pub mod screen;
pub mod settings;
pub mod settings_editor;
pub mod skills;
pub mod startup;
pub mod store;
pub mod task_form;
pub mod tasks;
pub mod text;
pub mod text_input;
pub mod thread_context;
pub mod titles;
pub mod views;
pub mod workflow;

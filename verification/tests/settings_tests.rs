use cosmic_vitals::configuration::app_configuration::AppConfiguration;
use cosmic_vitals::configuration::cpu::CpuConfiguration;
use cosmic_vitals::configuration::disk::DiskConfiguration;
use cosmic_vitals::configuration::general::GeneralConfiguration;
use cosmic_vitals::form_input::{FormInputValidation, LabelColour};
use cosmic_vitals::panel::{font_size, icon_size, PanelSize};
use cosmic_vitals::scheduler::{
    cpu_result, disk_result, interval_of, memory_result, network_result, MetricFamily, Scheduler,
    SchedulerAction, SchedulerEvent,
};
use cosmic_vitals::settings::{
    boolean_string, decimal_string, SettingsForm, SettingsFormInputType, SettingsValidator,
    SettingsWindow, HIDE_INDICATOR_SETTING_KEY, LABEL_COLOUR_SETTING_KEY, LABEL_TEXT_SETTING_KEY,
    MAX_SAMPLES_SETTING_KEY, UPDATE_INTERVAL_SETTING_KEY, USE_IEC_UNITS_SETTING_KEY,
};
use cosmic_vitals::simulation::{MemoryMonitor, SIMULATED_TOTAL_KILOBYTES};
use std::time::Duration;

#[test]
fn default_configuration_is_the_initial_one() {
    let configuration = AppConfiguration::default();
    assert_eq!(configuration.cpu.max_samples, 4);
    assert_eq!(configuration.memory.max_samples, 2);
    assert_eq!(configuration.network.max_samples, 4);
    assert_eq!(configuration.disk.max_samples, 3);
    assert_eq!(configuration.cpu.update_interval, Duration::from_secs(1));
    assert_eq!(configuration.cpu.label_text.as_deref(), Some("CPU"));
    assert_eq!(configuration.memory.label_text.as_deref(), Some("MEM"));
    assert_eq!(configuration.network.label_text.as_deref(), Some("NET"));
    assert_eq!(configuration.cpu.label_colour.as_deref(), Some("ext_blue"));
    assert_eq!(configuration.memory.label_colour.as_deref(), Some("ext_purple"));
    assert_eq!(configuration.network.label_colour.as_deref(), Some("accent_green"));
    assert_eq!(configuration.disk.label_colour.as_deref(), Some("accent_orange"));
    assert!(!configuration.disk.hide_indicator);
    assert_eq!(configuration.general.vertical_font_size_xs, 9);
    assert_eq!(configuration.general.horizontal_font_size_xl, 22);
    assert!(configuration.general.fix_indicator_size);
    assert!(!configuration.general.use_iec_units);
}

#[test]
fn monitor_form_shows_the_settings_in_order() {
    let form = SettingsForm::from_cpu(&CpuConfiguration::default());
    assert_eq!(form.settings_window_id, SettingsWindow::Cpu);
    assert_eq!(form.title, "settings-cpu-title");
    let keys: Vec<&str> = form.values.keys().copied().collect();
    assert_eq!(
        keys,
        vec![
            LABEL_TEXT_SETTING_KEY,
            LABEL_COLOUR_SETTING_KEY,
            HIDE_INDICATOR_SETTING_KEY,
            UPDATE_INTERVAL_SETTING_KEY,
            MAX_SAMPLES_SETTING_KEY,
        ]
    );
    assert_eq!(form.value(LABEL_TEXT_SETTING_KEY).as_deref(), Some("CPU"));
    assert_eq!(form.value(LABEL_COLOUR_SETTING_KEY).as_deref(), Some("ext_blue"));
    assert_eq!(form.value(HIDE_INDICATOR_SETTING_KEY).as_deref(), Some("false"));
    assert_eq!(form.value(UPDATE_INTERVAL_SETTING_KEY).as_deref(), Some("1000"));
    assert_eq!(form.value(MAX_SAMPLES_SETTING_KEY).as_deref(), Some("4"));
    assert_eq!(form.value("settings-unknown"), None);
    let row = form.values.get(UPDATE_INTERVAL_SETTING_KEY).unwrap();
    assert_eq!(row.label, "settings-update-interval");
    assert_eq!(row.input_type, SettingsFormInputType::String);
    assert_eq!(row.validator, Some(SettingsValidator::Interval));
}

#[test]
fn set_value_replaces_a_row_in_place() {
    let mut form = SettingsForm::from_disk(&DiskConfiguration::default());
    assert!(form.set_value(HIDE_INDICATOR_SETTING_KEY, "true".to_string()));
    assert!(!form.set_value("settings-unknown", "x".to_string()));
    assert_eq!(form.values.len(), 5);
    assert_eq!(form.values.get_index(2).unwrap().0, &HIDE_INDICATOR_SETTING_KEY);
    assert_eq!(form.value(HIDE_INDICATOR_SETTING_KEY).as_deref(), Some("true"));
    assert_eq!(form.value(MAX_SAMPLES_SETTING_KEY).as_deref(), Some("3"));
    let row = form.values.get(HIDE_INDICATOR_SETTING_KEY).unwrap();
    assert_eq!(row.label, "settings-hide-indicator");
    assert_eq!(row.validator, Some(SettingsValidator::Boolean));
}

#[test]
fn update_reads_the_settings_from_the_form() {
    let configuration = CpuConfiguration::default();
    let mut form = SettingsForm::from_cpu(&configuration);
    form.set_value(HIDE_INDICATOR_SETTING_KEY, " true ".to_string());
    form.set_value(UPDATE_INTERVAL_SETTING_KEY, "2500".to_string());
    form.set_value(MAX_SAMPLES_SETTING_KEY, "0".to_string());
    form.set_value(LABEL_COLOUR_SETTING_KEY, "accent_red".to_string());
    form.set_value(LABEL_TEXT_SETTING_KEY, "  Processor usage ".to_string());

    let updated = configuration.update(&form);

    assert!(updated.hide_indicator);
    assert_eq!(updated.update_interval, Duration::from_millis(2500));
    // A window size below the minimum leaves the setting as it was.
    assert_eq!(updated.max_samples, 4);
    assert_eq!(updated.label_colour.as_deref(), Some("accent_red"));
    // The label is cut to ten bytes, then trimmed.
    assert_eq!(updated.label_text.as_deref(), Some("Processo"));
}

#[test]
fn try_update_turns_down_the_form_of_another_window() {
    let configuration = AppConfiguration::default();
    let cpu_form = SettingsForm::from_cpu(&configuration.cpu);
    let memory_form = SettingsForm::from_memory(&configuration.memory);
    let network_form = SettingsForm::from_network(&configuration.network);
    let disk_form = SettingsForm::from_disk(&configuration.disk);
    let general_form = SettingsForm::from_general(&configuration.general);

    assert!(configuration.cpu.try_update(&memory_form).is_none());
    assert!(configuration.disk.try_update(&cpu_form).is_none());
    assert!(configuration.general.try_update(&cpu_form).is_none());
    assert_eq!(configuration.cpu.try_update(&cpu_form), Some(configuration.cpu.clone()));
    assert_eq!(configuration.disk.try_update(&disk_form), Some(configuration.disk.clone()));
    assert_eq!(configuration.general.try_update(&general_form), Some(configuration.general));
    assert_eq!(
        configuration.try_update(&cpu_form, &memory_form, &network_form, &disk_form),
        Some(configuration.clone())
    );
    assert_eq!(configuration.try_update(&cpu_form, &memory_form, &disk_form, &network_form), None);
}

#[test]
fn general_update_keeps_the_font_sizes() {
    let configuration = GeneralConfiguration::default();
    let mut form = SettingsForm::from_general(&configuration);
    form.set_value(USE_IEC_UNITS_SETTING_KEY, "true".to_string());
    let updated = configuration.update(&form);
    assert!(updated.use_iec_units);
    assert!(updated.fix_indicator_size);
    assert_eq!(updated.vertical_font_size_sm, configuration.vertical_font_size_sm);
}

#[test]
fn settings_form_options_lists_every_window() {
    let forms = AppConfiguration::default().settings_form_options();
    let windows: Vec<SettingsWindow> = forms.iter().map(|form| form.settings_window_id).collect();
    assert_eq!(
        windows,
        vec![
            SettingsWindow::General,
            SettingsWindow::Cpu,
            SettingsWindow::Memory,
            SettingsWindow::Network,
            SettingsWindow::Disk,
        ]
    );
    assert_eq!(forms[4].value(LABEL_TEXT_SETTING_KEY).as_deref(), Some(""));
}

#[test]
fn validators_hold_input_to_their_rule() {
    assert!(SettingsValidator::Interval.validate("250").is_ok());
    assert!(SettingsValidator::Interval.validate("249").is_err());
    assert!(SettingsValidator::MaxSamples.validate("1").is_ok());
    assert!(SettingsValidator::MaxSamples.validate("0").is_err());
    assert!(SettingsValidator::Boolean.validate("false").is_ok());
    assert!(SettingsValidator::Boolean.validate("False").is_err());
    assert!(SettingsValidator::LabelText.validate("label").is_ok());
    assert!(SettingsValidator::LabelText.validate("a label too long").is_err());
}

#[test]
fn numbers_and_truth_values_are_written_in_full() {
    assert_eq!(decimal_string(0), "0");
    assert_eq!(decimal_string(7), "7");
    assert_eq!(decimal_string(1050), "1050");
    assert_eq!(decimal_string(u128::MAX), u128::MAX.to_string());
    assert_eq!(boolean_string(true), "true");
    assert_eq!(boolean_string(false), "false");
}

#[test]
fn form_input_is_kept_within_bounds() {
    let previous = Duration::from_millis(1_000);
    assert_eq!(
        FormInputValidation::sanitise_interval_input("10".to_string(), previous),
        Duration::from_millis(250)
    );
    assert_eq!(
        FormInputValidation::sanitise_interval_input(" 300 ".to_string(), previous),
        Duration::from_millis(300)
    );
    assert_eq!(FormInputValidation::sanitise_interval_input("soon".to_string(), previous), previous);
    assert_eq!(FormInputValidation::sanitise_max_samples("0".to_string(), 5), 1);
    assert_eq!(FormInputValidation::sanitise_max_samples("12".to_string(), 5), 12);
    assert_eq!(FormInputValidation::sanitise_max_samples("".to_string(), 5), 5);
    assert_eq!(FormInputValidation::sanitise_label_text("short".to_string()), "short");
    assert_eq!(
        FormInputValidation::sanitise_label_text("seventeen letters".to_string()),
        "seventeen letter"
    );
}

#[test]
fn label_colour_is_parsed_or_kept() {
    let previous = LabelColour { r: 1, g: 2, b: 3, a: 4 };
    assert_eq!(
        FormInputValidation::sanitise_label_colour("#F00".to_string(), previous),
        LabelColour { r: 255, g: 0, b: 0, a: 255 }
    );
    assert_eq!(
        FormInputValidation::sanitise_label_colour("#f0ffff80".to_string(), previous),
        LabelColour { r: 0xf0, g: 0xff, b: 0xff, a: 0x80 }
    );
    assert_eq!(FormInputValidation::sanitise_label_colour("red".to_string(), previous), previous);
    assert_eq!(FormInputValidation::sanitise_label_colour("".to_string(), previous), previous);
}

#[test]
fn simulated_memory_adds_up() {
    let monitor = MemoryMonitor::new();
    for _ in 0..100 {
        let info = monitor.update().unwrap();
        assert_eq!(info.total_kilobytes, SIMULATED_TOTAL_KILOBYTES);
        assert!(info.available_kilobytes < SIMULATED_TOTAL_KILOBYTES);
        assert_eq!(info.free_kilobytes + info.available_kilobytes, info.total_kilobytes);
    }
    assert_eq!(MemoryMonitor::info_for(676).free_kilobytes, 32000);
}

#[test]
fn scheduler_polls_enabled_families_until_cancelled() {
    let mut configuration = AppConfiguration::default();
    configuration.network.hide_indicator = true;
    let mut scheduler = Scheduler::new(&configuration);
    let generation = scheduler.generation();
    assert_eq!(generation, 0);
    assert!(scheduler.is_enabled(MetricFamily::Cpu));
    assert!(!scheduler.is_enabled(MetricFamily::Network));

    assert_eq!(
        scheduler.on_event(generation, SchedulerEvent::Tick(MetricFamily::Memory)),
        SchedulerAction::Poll(MetricFamily::Memory)
    );
    assert_eq!(
        scheduler.on_event(generation, SchedulerEvent::Tick(MetricFamily::Network)),
        SchedulerAction::Skip
    );
    // A cancellation of another generation is none of ours.
    assert_eq!(scheduler.on_event(generation + 1, SchedulerEvent::Cancelled), SchedulerAction::Skip);
    assert_eq!(
        scheduler.on_event(generation, SchedulerEvent::Tick(MetricFamily::Disk)),
        SchedulerAction::Poll(MetricFamily::Disk)
    );
    assert_eq!(scheduler.on_event(generation, SchedulerEvent::Cancelled), SchedulerAction::Stop);
    assert_eq!(
        scheduler.on_event(generation, SchedulerEvent::Tick(MetricFamily::Memory)),
        SchedulerAction::Stop
    );
}

#[test]
fn restart_starts_a_new_generation() {
    let mut configuration = AppConfiguration::default();
    let mut first = Scheduler::new(&configuration);
    configuration.cpu.hide_indicator = true;
    let mut second = first.restart(&configuration);
    assert_eq!(second.generation(), 1);
    assert_eq!(first.on_event(0, SchedulerEvent::Cancelled), SchedulerAction::Stop);
    // What is left over from the first generation does not reach the second.
    assert_eq!(second.on_event(0, SchedulerEvent::Cancelled), SchedulerAction::Skip);
    assert_eq!(
        second.on_event(1, SchedulerEvent::Tick(MetricFamily::Cpu)),
        SchedulerAction::Skip
    );
    assert_eq!(
        second.on_event(1, SchedulerEvent::Tick(MetricFamily::Disk)),
        SchedulerAction::Poll(MetricFamily::Disk)
    );
}

#[test]
fn failed_polls_publish_a_default() {
    assert_eq!(memory_result(Err("boom".to_string())).used_kib, 0);
    assert!(cpu_result(Err("boom".to_string())).is_empty());
    let network = network_result(Err("boom".to_string()));
    assert_eq!((network[0].bytes, network[1].bytes), (0, 0));
    let disk = disk_result(Err("boom".to_string()));
    assert_eq!((disk[0].ops, disk[1].ops), (0, 0));
}

#[test]
fn intervals_come_from_the_family_settings() {
    let mut configuration = AppConfiguration::default();
    configuration.disk.update_interval = Duration::from_millis(750);
    assert_eq!(interval_of(&configuration, MetricFamily::Disk), Duration::from_millis(750));
    assert_eq!(interval_of(&configuration, MetricFamily::Cpu), Duration::from_millis(1000));
}

#[test]
fn sizes_follow_the_panel() {
    let configuration = GeneralConfiguration::default();
    assert_eq!(font_size(&configuration, Some(PanelSize::XS), false), 9);
    assert_eq!(font_size(&configuration, Some(PanelSize::XS), true), 14);
    assert_eq!(font_size(&configuration, Some(PanelSize::XL), true), 22);
    assert_eq!(font_size(&configuration, None, true), 14);
    assert_eq!(icon_size(Some(PanelSize::XS)), 12);
    assert_eq!(icon_size(Some(PanelSize::L)), 18);
    assert_eq!(icon_size(None), 12);
}

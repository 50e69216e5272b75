//! The configuration of the whole panel, and the limits on its settings.

use crate::configuration::cpu::CpuConfiguration;
use crate::configuration::disk::DiskConfiguration;
use crate::configuration::general::GeneralConfiguration;
use crate::configuration::memory::MemoryConfiguration;
use crate::configuration::network::NetworkConfiguration;
use crate::settings::SettingsForm;
use vstd::prelude::*;

verus! {

/// The shortest polling interval that a monitor accepts, in milliseconds.
pub const SENSOR_INTERVAL_MINIMUM_IN_MS: u64 = 250;

/// The smallest window that a monitor averages over.
pub const SENSOR_MAX_SAMPLES_MINIMUM: usize = 1;

/// The longest label of an indicator, in bytes of UTF-8.
pub const SENSOR_MAX_LABEL_LENGTH: usize = 10;

/// The configuration of every monitor and of the panel as a whole.
#[derive(Debug, Clone, Eq, PartialEq)]
pub struct AppConfiguration {
    /// Settings that all indicators share.
    pub general: GeneralConfiguration,
    /// The CPU monitor.
    pub cpu: CpuConfiguration,
    /// The memory monitor.
    pub memory: MemoryConfiguration,
    /// The network monitor.
    pub network: NetworkConfiguration,
    /// The disk monitor.
    pub disk: DiskConfiguration,
}

impl Default for AppConfiguration {
    fn default() -> (configuration: Self)
        ensures
            configuration.general == GeneralConfiguration::initial(),
            configuration.cpu.is_initial(),
            configuration.memory.is_initial(),
            configuration.network.is_initial(),
            configuration.disk.is_initial(),
    {
        AppConfiguration {
            general: GeneralConfiguration::default(),
            cpu: CpuConfiguration::default(),
            memory: MemoryConfiguration::default(),
            network: NetworkConfiguration::default(),
            disk: DiskConfiguration::default(),
        }
    }
}

impl AppConfiguration {
    /// The forms in which the settings are edited: that of the whole panel
    /// first, then those of the CPU, memory, network and disk monitors.
    pub fn settings_form_options(&self) -> (forms: Vec<SettingsForm>)
        ensures
            forms@.len() == 5,
            forms@[0].settings_window_id == crate::settings::SettingsWindow::General,
            forms@[1].settings_window_id == crate::settings::SettingsWindow::Cpu,
            forms@[2].settings_window_id == crate::settings::SettingsWindow::Memory,
            forms@[3].settings_window_id == crate::settings::SettingsWindow::Network,
            forms@[4].settings_window_id == crate::settings::SettingsWindow::Disk,
            crate::settings::rows_of(forms@[0].entries()) == crate::settings::general_rows(
                self.general.fix_indicator_size,
                self.general.use_iec_units,
            ),
            crate::settings::is_shared_form(
                forms@[1].entries(),
                self.cpu.hide_indicator,
                self.cpu.update_interval,
                self.cpu.max_samples,
                crate::settings::text_of(self.cpu.label_colour),
                crate::settings::text_of(self.cpu.label_text),
            ),
            crate::settings::is_shared_form(
                forms@[2].entries(),
                self.memory.hide_indicator,
                self.memory.update_interval,
                self.memory.max_samples,
                crate::settings::text_of(self.memory.label_colour),
                crate::settings::text_of(self.memory.label_text),
            ),
            crate::settings::is_shared_form(
                forms@[3].entries(),
                self.network.hide_indicator,
                self.network.update_interval,
                self.network.max_samples,
                crate::settings::text_of(self.network.label_colour),
                crate::settings::text_of(self.network.label_text),
            ),
            crate::settings::is_shared_form(
                forms@[4].entries(),
                self.disk.hide_indicator,
                self.disk.update_interval,
                self.disk.max_samples,
                crate::settings::text_of(self.disk.label_colour),
                Seq::empty(),
            ),
    {
        let mut forms: Vec<SettingsForm> = Vec::new();
        forms.push(SettingsForm::from_general(&self.general));
        forms.push(SettingsForm::from_cpu(&self.cpu));
        forms.push(SettingsForm::from_memory(&self.memory));
        forms.push(SettingsForm::from_network(&self.network));
        forms.push(SettingsForm::from_disk(&self.disk));
        forms
    }

    /// The configuration read anew from the forms of the four monitors; the
    /// settings of the whole panel stay as they are. Nothing if a form is
    /// that of another window or lacks a row.
    pub fn try_update(
        &self,
        cpu_form: &SettingsForm,
        memory_form: &SettingsForm,
        network_form: &SettingsForm,
        disk_form: &SettingsForm,
    ) -> (result: Option<AppConfiguration>)
        ensures
            result is Some <==> {
                &&& CpuConfiguration::updatable_from(cpu_form)
                &&& MemoryConfiguration::updatable_from(memory_form)
                &&& NetworkConfiguration::updatable_from(network_form)
                &&& DiskConfiguration::updatable_from(disk_form)
            },
            result matches Some(after) ==> {
                &&& after.general == self.general
                &&& self.cpu.updated_to(&after.cpu, cpu_form)
                &&& self.memory.updated_to(&after.memory, memory_form)
                &&& self.network.updated_to(&after.network, network_form)
                &&& self.disk.updated_to(&after.disk, disk_form)
            },
    {
        let cpu = match self.cpu.try_update(cpu_form) {
            Some(after) => after,
            None => {
                return None;
            },
        };
        let memory = match self.memory.try_update(memory_form) {
            Some(after) => after,
            None => {
                return None;
            },
        };
        let network = match self.network.try_update(network_form) {
            Some(after) => after,
            None => {
                return None;
            },
        };
        let disk = match self.disk.try_update(disk_form) {
            Some(after) => after,
            None => {
                return None;
            },
        };
        Some(AppConfiguration { general: self.general, cpu, memory, network, disk })
    }
}

} // verus!

//! The texts that the front-end shows of itself.

use crate::text::decimal;
use vstd::prelude::*;

verus! {

/// What stands before a line from the error stream.
pub const ERROR_PREFIX: &'static str = "🔥 ERROR: ";

/// What stands before the exit code in the line that reports it.
pub const EXIT_PREFIX: &'static str = "🏁 게임 종료 (코드: ";

/// What stands behind the exit code in the line that reports it.
pub const EXIT_SUFFIX: &'static str = ")";

/// What stands before a submitted input in the scrollback.
pub const ECHO_PREFIX: &'static str = "👤 ";

/// The line shown when an input could not be delivered.
pub const CONNECTION_LOST: &'static str = "❌ Python 프로세스와의 연결이 끊어졌습니다.";

/// The line shown when the process is found to have ended.
pub const EXIT_NOTICE: &'static str = "🏁 Python 게임 프로세스가 종료되었습니다.";

/// The line that tells how to leave, shown when the process has ended.
pub const QUIT_HINT: &'static str = "📌 q 또는 ESC를 눌러 TUI를 종료하세요.";

/// The line shown when the process was started.
pub const START_BANNER: &'static str = "🐍 D&D 게임 시작! Python 엔진 가동중...";

/// The name of the program in the header.
pub const PROGRAM_NAME: &'static str = "🎲 LLM D&D Adventure";

/// The location shown before the process was started.
pub const LOCATION_PREPARING: &'static str = "게임 시작 준비중...";

/// The location shown once the process was started.
pub const LOCATION_STARTING: &'static str = "게임 초기화 중...";

/// The user status shown before the first tick.
pub const USER_STATUS_PREPARING: &'static str = "게임 준비중...";

/// The equipment status shown before the first tick.
pub const EQUIPMENT_PREPARING: &'static str = "장비 준비중...";

/// The user status while the process runs.
pub const USER_STATUS_RUNNING: &'static str = "🎮 게임 진행 중 | 모험가 준비됨";

/// The equipment status while the process runs.
pub const EQUIPMENT_RUNNING: &'static str = "⚔️ 장비: 준비 완료 | 📦 인벤토리: 정상";

/// The user status once the process has stopped.
pub const USER_STATUS_STOPPED: &'static str = "⏸️ 게임 일시정지";

/// The equipment status once the process has stopped.
pub const EQUIPMENT_STOPPED: &'static str = "❌ 연결 끊김";

/// The mark behind the line being typed in the displayed text.
pub const CURSOR_MARK: &'static str = "█";

/// The line from the error stream `text` as the scrollback shows it.
pub open spec fn error_line(text: Seq<char>) -> Seq<char> {
    ERROR_PREFIX@ + text
}

/// The line that reports the exit code `code`.
pub open spec fn exit_line(code: int) -> Seq<char> {
    EXIT_PREFIX@ + decimal(code) + EXIT_SUFFIX@
}

/// The submitted input `text` as the scrollback shows it.
pub open spec fn echo_line(text: Seq<char>) -> Seq<char> {
    ECHO_PREFIX@ + text
}

} // verus!

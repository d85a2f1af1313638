# task_executor

The decisions of a task executor: a program that hands an issue, a pull request or a
prompt to a coding agent, watches what the agent does, and sees the resulting pull request
through its reviews.

`src/` is the library. It decides, and every decision is stated in a contract and proved
with Verus:

- what an agent's output means (`markers`, `implement`, `outcome`, `gates`, `mention`);
- what comes next in a task (`run`, `plan_run`, `pipeline`, `retry`, `interceptors`,
  `agent_review`, `review_loop`, `completion`, `lookup`, `stream`, `lifecycle`, `test_gate`,
  `pr_checks`): each of these takes what happened and answers with the next step;
- what the bots that watch a pull request have said (`bots`, `signals`, `wait_budget`);
- which pull request closes which issue, and which repository a checkout belongs to
  (`closing`, `lookup`, `remotes`);
- the prompts and the records that go out (`prompt_builder`, `phase`,
  `non_implementation`, `providers`, `usage`, `items`, `telemetry`, `events`, `task`);
- what has changed in a workspace (`snapshot`, `porcelain`).

What is written with `chrono` and `serde_json` is stated in `clock` and `json`.

`app/` runs the agents, the commands and the requests to GitHub, and hands what came of
them to the library. `tests/` runs the library on concrete values.

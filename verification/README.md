# orangutan_rl

Reinforcement-learning experiments: small environments, experience stores,
vanilla policy gradient and PPO.

`src/` is the verified library:

- `env`: the integer-valued environments (`toy::ToyEnv`, `line::Env`,
  `grid::OneDimGridEnv`) and the `Env` / `Observation` traits.
- `memory`: the bounded ring buffers of PPO's experience memory, and uniform
  sampling of stored indices (through `rand`).
- `buffer`: the bookkeeping of the vanilla-policy-gradient buffer, generic over
  its number and action types.
- `schedule`: when a rollout closes a path, and the control-rate divider of the
  online controller.
- `run`: the state of PPO's episode loop on `ToyEnv`.
- `util`: flattening a table of rows into one row-major vector.

`app/` holds the programs: the neural networks and losses (burn), the
floating-point environments and pendulum (gorilla_physics), plotting
(plotters), and the training loops that drive the library.
